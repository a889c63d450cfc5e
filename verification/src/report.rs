//! The result of a quiz: the score, a verdict on it, and the lines that
//! tell the player.

use vstd::prelude::*;
use crate::decimal::{decimal_text, render};

verus! {

/// Said first when the time ran out before the last answer.
pub const TIME_IS_UP: &'static str = "⏲️⏲️ Time is up! ⏲️⏲️";

/// Said after `TIME_IS_UP`, before the score.
pub const SCORE_FOLLOWS: &'static str = "Lets see how you did...";

/// Said when every answer was right.
pub const GENIUS: &'static str = "🎉🎉🎉 Congratulations you are a GENIUS 🎉🎉🎉";

/// Said when the right answers are half of the questions, rounded down.
pub const AMAZING: &'static str = "👍 You are amazing 👍";

/// Said of every other score.
pub const STUDY_MORE: &'static str = "👎 You need to study more 👎";

/// What is said of a score.
#[derive(Clone, Copy, Debug, PartialEq, Eq, Structural)]
pub enum Verdict {
    Genius,
    Amazing,
    StudyMore,
}

/// The verdict on `correct` right answers to `total` questions. Every answer
/// right is genius. Otherwise a score of exactly half the questions, the
/// half rounded down, is amazing: two of five is, three of five is not.
/// Everything else calls for more study.
pub open spec fn verdict_of(correct: nat, total: nat) -> Verdict {
    if correct == total {
        Verdict::Genius
    } else if correct == total / 2 {
        Verdict::Amazing
    } else {
        Verdict::StudyMore
    }
}

/// The line that tells a verdict.
pub open spec fn verdict_line(verdict: Verdict) -> Seq<char> {
    match verdict {
        Verdict::Genius => GENIUS@,
        Verdict::Amazing => AMAZING@,
        Verdict::StudyMore => STUDY_MORE@,
    }
}

/// The line that tells a score.
pub open spec fn score_line(correct: nat, total: nat) -> Seq<char> {
    "You got "@ + decimal_text(correct) + " out of "@ + decimal_text(total)
}

/// What each of `lines` says, in the same order.
pub open spec fn texts(lines: Seq<String>) -> Seq<Seq<char>> {
    lines.map_values(|line: String| line@)
}

/// How a quiz ended.
#[derive(Clone, Copy, Debug, PartialEq, Eq, Structural)]
pub struct Report {
    /// Whether the last question was answered before the report was made.
    pub finished: bool,
    /// How many answers were right.
    pub correct: usize,
    /// How many questions the quiz has.
    pub total: usize,
}

/// The lines that tell `report`: a notice that the time ran out, unless the
/// quiz was finished; then the score; then the verdict.
pub open spec fn report_lines(report: Report) -> Seq<Seq<char>> {
    let notice = if report.finished {
        Seq::<Seq<char>>::empty()
    } else {
        seq![TIME_IS_UP@, SCORE_FOLLOWS@]
    };
    notice + seq![
        score_line(report.correct as nat, report.total as nat),
        verdict_line(verdict_of(report.correct as nat, report.total as nat)),
    ]
}

/// The notice that the time ran out is among the lines of a report exactly
/// when the quiz was not finished, and then it comes first.
pub proof fn lemma_notice_tells_unfinished(report: Report)
    ensures
        report_lines(report).contains(TIME_IS_UP@) <==> !report.finished,
        !report.finished ==> report_lines(report)[0] == TIME_IS_UP@,
        report_lines(report).len() == if report.finished {
            2nat
        } else {
            4nat
        },
{
    let lines = report_lines(report);
    let score = score_line(report.correct as nat, report.total as nat);
    let verdict = verdict_line(verdict_of(report.correct as nat, report.total as nat));
    reveal_strlit("⏲️⏲️ Time is up! ⏲️⏲️");
    reveal_strlit("Lets see how you did...");
    reveal_strlit("You got ");
    reveal_strlit("🎉🎉🎉 Congratulations you are a GENIUS 🎉🎉🎉");
    reveal_strlit("👍 You are amazing 👍");
    reveal_strlit("👎 You need to study more 👎");
    assert(score[0] == 'Y');
    assert(score != TIME_IS_UP@);
    assert(verdict[0] != TIME_IS_UP@[0]);
    assert(SCORE_FOLLOWS@[0] != TIME_IS_UP@[0]);
    if report.finished {
        assert(lines =~= seq![score, verdict]);
        assert forall|i: int| 0 <= i < lines.len() implies lines[i] != TIME_IS_UP@ by {}
    } else {
        assert(lines =~= seq![TIME_IS_UP@, SCORE_FOLLOWS@, score, verdict]);
        assert(lines[0] == TIME_IS_UP@);
    }
}

impl Verdict {
    /// The line that tells this verdict.
    pub fn line(&self) -> (text: &'static str)
        ensures
            text@ == verdict_line(*self),
    {
        match self {
            Verdict::Genius => GENIUS,
            Verdict::Amazing => AMAZING,
            Verdict::StudyMore => STUDY_MORE,
        }
    }
}

impl Report {
    /// The verdict on the score.
    pub fn verdict(&self) -> (verdict: Verdict)
        ensures
            verdict == verdict_of(self.correct as nat, self.total as nat),
    {
        if self.correct == self.total {
            Verdict::Genius
        } else if self.correct == self.total / 2 {
            Verdict::Amazing
        } else {
            Verdict::StudyMore
        }
    }

    /// The line that tells the score.
    pub fn score(&self) -> (text: String)
        ensures
            text@ == score_line(self.correct as nat, self.total as nat),
    {
        let mut text = "You got ".to_owned();
        text.append(render(self.correct as u64).as_str());
        text.append(" out of ");
        text.append(render(self.total as u64).as_str());
        text
    }

    /// The lines to show, from first to last.
    pub fn lines(&self) -> (lines: Vec<String>)
        ensures
            texts(lines@) == report_lines(*self),
    {
        let mut lines: Vec<String> = Vec::new();
        if !self.finished {
            lines.push(TIME_IS_UP.to_owned());
            lines.push(SCORE_FOLLOWS.to_owned());
        }
        lines.push(self.score());
        lines.push(self.verdict().line().to_owned());
        assert(texts(lines@) =~= report_lines(*self));
        lines
    }
}

} // verus!
