use quiz_game::question::Question;
use quiz_game::quiz::Quiz;
use quiz_game::rows::{parse_rows, ParseError, DEFAULT_TIME_LIMIT};

fn row(fields: &[&str]) -> Vec<String> {
    fields.iter().map(|field| field.to_string()).collect()
}

fn pairs(questions: &[Question]) -> Vec<(String, String)> {
    questions.iter().map(|q| (q.ask().clone(), q.answer().clone())).collect()
}

fn sorted_pairs(quiz: &Quiz) -> Vec<(String, String)> {
    let mut all = pairs(quiz.questions());
    all.sort();
    all
}

fn pair(question: &str, answer: &str) -> (String, String) {
    (question.to_string(), answer.to_string())
}

#[test]
fn rows_with_two_fields_are_questions_in_order() {
    let rows = vec![row(&["5+5", "10"]), row(&["7+3", "10"]), row(&["1+1", "2"])];
    let (questions, time) = parse_rows(&rows).unwrap();
    assert_eq!(pairs(&questions), vec![pair("5+5", "10"), pair("7+3", "10"), pair("1+1", "2")]);
    assert_eq!(time, 30);
    assert_eq!(time, DEFAULT_TIME_LIMIT);
}

#[test]
fn fields_after_the_second_are_ignored() {
    let rows = vec![row(&["5+5", "10", "ten", "X"])];
    let (questions, _) = parse_rows(&rows).unwrap();
    assert_eq!(pairs(&questions), vec![pair("5+5", "10")]);
}

#[test]
fn a_single_field_sets_the_time_limit_and_is_no_question() {
    let rows = vec![row(&["45"])];
    let (questions, time) = parse_rows(&rows).unwrap();
    assert!(questions.is_empty());
    assert_eq!(time, 45);
}

#[test]
fn the_last_time_limit_wins() {
    let rows = vec![row(&["45"]), row(&["5+5", "10"]), row(&["60"]), row(&["1+1", "2"]), row(&["5"])];
    let (questions, time) = parse_rows(&rows).unwrap();
    assert_eq!(questions.len(), 2);
    assert_eq!(time, 5);
}

#[test]
fn no_rows_are_an_empty_quiz_with_the_default_limit() {
    let (questions, time) = parse_rows(&Vec::new()).unwrap();
    assert!(questions.is_empty());
    assert_eq!(time, 30);
}

#[test]
fn a_row_without_fields_is_a_fault() {
    let rows = vec![row(&["5+5", "10"]), row(&[]), row(&["1+1", "2"])];
    assert_eq!(parse_rows(&rows).unwrap_err(), ParseError::EmptyRow { row: 1 });
}

#[test]
fn a_time_limit_that_is_no_number_is_a_fault() {
    for bad in ["soon", "", "-5", "4.5", " 45", "18446744073709551616"] {
        let rows = vec![row(&["45"]), row(&[bad])];
        assert_eq!(parse_rows(&rows).unwrap_err(), ParseError::BadTimeLimit { row: 1 });
    }
}

#[test]
fn the_first_fault_is_the_one_reported() {
    let rows = vec![row(&["a", "b"]), row(&["x"]), row(&[]), row(&["y"])];
    assert_eq!(parse_rows(&rows).unwrap_err(), ParseError::BadTimeLimit { row: 1 });
    let rows = vec![row(&[]), row(&["x"])];
    assert_eq!(parse_rows(&rows).unwrap_err(), ParseError::EmptyRow { row: 0 });
}

#[test]
fn empty_fields_make_a_question_all_the_same() {
    let rows = vec![row(&["", ""])];
    let (questions, _) = parse_rows(&rows).unwrap();
    assert_eq!(pairs(&questions), vec![pair("", "")]);
}

#[test]
fn from_cvs_loads_questions_and_time_limit() {
    let quiz = Quiz::from_cvs(b"5+5,10\n45\n7+3,10\n1+1,2,two\n").unwrap();
    assert_eq!(quiz.total(), 3);
    assert_eq!(quiz.time(), 45);
    assert_eq!(quiz.asked(), 0);
    assert_eq!(quiz.correct(), 0);
    assert!(!quiz.finished());
    assert_eq!(sorted_pairs(&quiz), vec![pair("1+1", "2"), pair("5+5", "10"), pair("7+3", "10")]);
}

#[test]
fn from_cvs_counts_exactly_the_question_rows() {
    let quiz = Quiz::from_cvs(b"10\na,b\n20\nc,d,e,f\n30\n\"g\",h\n").unwrap();
    assert_eq!(quiz.total(), 3);
    assert_eq!(quiz.time(), 30);
}

#[test]
fn from_cvs_keeps_the_default_limit_where_none_is_set() {
    let quiz = Quiz::from_cvs(b"a,b\n").unwrap();
    assert_eq!(quiz.time(), 30);
}

#[test]
fn from_cvs_reads_the_first_row_as_data() {
    let quiz = Quiz::from_cvs(b"question,answer\n").unwrap();
    assert_eq!(sorted_pairs(&quiz), vec![pair("question", "answer")]);
}

#[test]
fn from_cvs_reads_quoted_fields() {
    let quiz = Quiz::from_cvs(b"\"Hello, who?\",\"a \"\"b\"\"\"\n").unwrap();
    assert_eq!(sorted_pairs(&quiz), vec![pair("Hello, who?", "a \"b\"")]);
}

#[test]
fn from_cvs_keeps_white_space_in_fields() {
    let quiz = Quiz::from_cvs(b" q , a \n").unwrap();
    assert_eq!(sorted_pairs(&quiz), vec![pair(" q ", " a ")]);
}

#[test]
fn from_cvs_of_an_empty_text_is_an_empty_quiz() {
    let quiz = Quiz::from_cvs(b"").unwrap();
    assert_eq!(quiz.total(), 0);
    assert_eq!(quiz.time(), 30);
    let quiz = Quiz::from_cvs(b"\n\n\n").unwrap();
    assert_eq!(quiz.total(), 0);
}

#[test]
fn from_cvs_fails_on_a_time_limit_that_is_no_number() {
    assert_eq!(Quiz::from_cvs(b"a,b\nsoon\n").unwrap_err(), ParseError::BadTimeLimit { row: 1 });
    assert_eq!(Quiz::from_cvs(b" 45\n").unwrap_err(), ParseError::BadTimeLimit { row: 0 });
    assert_eq!(Quiz::from_cvs(b"\"\"\n").unwrap_err(), ParseError::BadTimeLimit { row: 0 });
}

#[test]
fn from_cvs_fails_on_text_that_is_not_utf8() {
    assert_eq!(Quiz::from_cvs(b"a,b\n\xff\xfe,c\n").unwrap_err(), ParseError::Unreadable);
}

#[test]
fn shuffling_keeps_every_question_and_adds_none() {
    let mut text = String::new();
    let mut expected = Vec::new();
    for n in 0..50 {
        text.push_str(&format!("q{},a{}\n", n % 40, n));
        expected.push(pair(&format!("q{}", n % 40), &format!("a{}", n)));
    }
    expected.sort();
    for _ in 0..20 {
        let quiz = Quiz::from_cvs(text.as_bytes()).unwrap();
        assert_eq!(quiz.total(), 50);
        assert_eq!(sorted_pairs(&quiz), expected);
    }
}

#[test]
fn shuffling_keeps_questions_that_occur_twice() {
    let quiz = Quiz::from_cvs(b"q,a\nq,a\nq,b\n").unwrap();
    assert_eq!(sorted_pairs(&quiz), vec![pair("q", "a"), pair("q", "a"), pair("q", "b")]);
}

#[test]
fn shuffling_changes_the_order_sooner_or_later() {
    let mut text = String::new();
    for n in 0..30 {
        text.push_str(&format!("q{},a{}\n", n, n));
    }
    let in_order = {
        let rows: Vec<Vec<String>> =
            (0..30).map(|n| row(&[&format!("q{}", n), &format!("a{}", n)])).collect();
        pairs(&parse_rows(&rows).unwrap().0)
    };
    let moved = (0..10)
        .any(|_| pairs(Quiz::from_cvs(text.as_bytes()).unwrap().questions()) != in_order);
    assert!(moved);
}
