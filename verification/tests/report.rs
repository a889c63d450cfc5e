use quiz_game::report::{Report, Verdict, AMAZING, GENIUS, SCORE_FOLLOWS, STUDY_MORE, TIME_IS_UP};

fn verdict(correct: usize, total: usize) -> Verdict {
    Report { finished: true, correct, total }.verdict()
}

#[test]
fn all_right_is_genius() {
    assert_eq!(verdict(4, 4), Verdict::Genius);
    assert_eq!(verdict(1, 1), Verdict::Genius);
}

#[test]
fn exactly_half_is_amazing() {
    assert_eq!(verdict(2, 4), Verdict::Amazing);
}

#[test]
fn less_than_half_calls_for_study() {
    assert_eq!(verdict(1, 4), Verdict::StudyMore);
    assert_eq!(verdict(0, 4), Verdict::StudyMore);
}

#[test]
fn two_of_five_is_amazing() {
    assert_eq!(verdict(2, 5), Verdict::Amazing);
}

#[test]
fn more_than_half_but_not_all_calls_for_study() {
    assert_eq!(verdict(3, 4), Verdict::StudyMore);
    assert_eq!(verdict(3, 5), Verdict::StudyMore);
    assert_eq!(verdict(4, 5), Verdict::StudyMore);
}

#[test]
fn an_empty_quiz_is_genius() {
    assert_eq!(verdict(0, 0), Verdict::Genius);
}

#[test]
fn none_of_one_is_amazing() {
    assert_eq!(verdict(0, 1), Verdict::Amazing);
}

#[test]
fn verdict_lines_are_the_fixed_texts() {
    assert_eq!(Verdict::Genius.line(), "🎉🎉🎉 Congratulations you are a GENIUS 🎉🎉🎉");
    assert_eq!(Verdict::Amazing.line(), "👍 You are amazing 👍");
    assert_eq!(Verdict::StudyMore.line(), "👎 You need to study more 👎");
    assert_eq!(GENIUS, Verdict::Genius.line());
    assert_eq!(AMAZING, Verdict::Amazing.line());
    assert_eq!(STUDY_MORE, Verdict::StudyMore.line());
}

#[test]
fn score_line_names_both_numbers() {
    let report = Report { finished: true, correct: 3, total: 12 };
    assert_eq!(report.score(), "You got 3 out of 12");
    let report = Report { finished: false, correct: 0, total: 0 };
    assert_eq!(report.score(), "You got 0 out of 0");
}

#[test]
fn a_finished_quiz_reports_score_and_verdict() {
    let report = Report { finished: true, correct: 4, total: 4 };
    assert_eq!(
        report.lines(),
        vec![
            "You got 4 out of 4".to_string(),
            "🎉🎉🎉 Congratulations you are a GENIUS 🎉🎉🎉".to_string(),
        ]
    );
}

#[test]
fn an_unfinished_quiz_reports_that_time_is_up_first() {
    let report = Report { finished: false, correct: 2, total: 5 };
    assert_eq!(
        report.lines(),
        vec![
            "⏲️⏲️ Time is up! ⏲️⏲️".to_string(),
            "Lets see how you did...".to_string(),
            "You got 2 out of 5".to_string(),
            "👍 You are amazing 👍".to_string(),
        ]
    );
    assert_eq!(report.lines()[0], TIME_IS_UP);
    assert_eq!(report.lines()[1], SCORE_FOLLOWS);
}

#[test]
fn only_an_unfinished_quiz_says_that_time_is_up() {
    for correct in 0..4 {
        let done = Report { finished: true, correct, total: 3 };
        let cut = Report { finished: false, correct, total: 3 };
        assert!(!done.lines().iter().any(|line| line == TIME_IS_UP));
        assert!(cut.lines().iter().any(|line| line == TIME_IS_UP));
        assert_eq!(cut.lines()[2..], done.lines()[..]);
    }
}
