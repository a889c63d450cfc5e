//! What holds of a quiz whatever its caller does.

use vstd::prelude::*;
use crate::quiz::{action_on, quiz_after, ActionView, EventView, QuizView};
use crate::text::is_blank;

verus! {

/// The quiz after each of `events` in turn.
pub open spec fn quiz_after_all(quiz: QuizView, events: Seq<EventView>) -> QuizView
    decreases events.len(),
{
    if events.len() == 0 {
        quiz
    } else {
        quiz_after(quiz_after_all(quiz, events.drop_last()), events.last())
    }
}

/// Whether `event` is a line that holds no answer.
pub open spec fn is_blank_line(event: EventView) -> bool {
    event matches EventView::Line(line) && is_blank(line)
}

/// Whether each of `events` is a blank line.
pub open spec fn all_blank_lines(events: Seq<EventView>) -> bool {
    forall|i: int| 0 <= i < events.len() ==> is_blank_line(#[trigger] events[i])
}

/// No event takes the score out of its range: after it, as before it, there
/// are no more right answers than answers, no more answers than questions,
/// and the quiz is over only with every question answered.
pub proof fn lemma_event_keeps_score_in_range(quiz: QuizView, event: EventView)
    requires
        quiz.well_formed(),
    ensures
        quiz_after(quiz, event).well_formed(),
        quiz_after(quiz, event).correct <= quiz.questions.len(),
{
}

/// However long a quiz runs, the score stays between nothing and the number
/// of questions.
pub proof fn lemma_score_always_in_range(quiz: QuizView, events: Seq<EventView>)
    requires
        quiz.well_formed(),
    ensures
        quiz_after_all(quiz, events).well_formed(),
        quiz_after_all(quiz, events).questions == quiz.questions,
        0 <= quiz_after_all(quiz, events).correct <= quiz.questions.len(),
    decreases events.len(),
{
    if events.len() > 0 {
        lemma_score_always_in_range(quiz, events.drop_last());
        lemma_event_keeps_score_in_range(quiz_after_all(quiz, events.drop_last()), events.last());
    }
}

/// An event never takes back an answer or a point, never touches the
/// questions or the time limit, and moves on by one question at most.
pub proof fn lemma_event_moves_forward(quiz: QuizView, event: EventView)
    ensures
        quiz_after(quiz, event).questions == quiz.questions,
        quiz_after(quiz, event).time == quiz.time,
        quiz.asked <= quiz_after(quiz, event).asked <= quiz.asked + 1,
        quiz.correct <= quiz_after(quiz, event).correct,
        quiz_after(quiz, event).correct - quiz.correct <= quiz_after(quiz, event).asked
            - quiz.asked,
        quiz.finished ==> quiz_after(quiz, event).finished,
{
}

/// A blank line does not answer the question at hand: the quiz stays as it
/// is, and asks for an answer once more.
pub proof fn lemma_blank_line_keeps_question(quiz: QuizView, line: Seq<char>)
    requires
        quiz.asked < quiz.questions.len(),
        is_blank(line),
    ensures
        quiz_after(quiz, EventView::Line(line)) == quiz,
        action_on(quiz, EventView::Line(line)) == ActionView::Retry,
{
}

/// However many blank lines come in, the quiz stays at the question at
/// hand.
pub proof fn lemma_blank_lines_keep_question(quiz: QuizView, events: Seq<EventView>)
    requires
        quiz.asked < quiz.questions.len(),
        all_blank_lines(events),
    ensures
        quiz_after_all(quiz, events) == quiz,
    decreases events.len(),
{
    if events.len() > 0 {
        let before = events.drop_last();
        assert(all_blank_lines(before)) by {
            assert forall|i: int| 0 <= i < before.len() implies is_blank_line(
                #[trigger] before[i],
            ) by {
                assert(before[i] == events[i]);
            }
        }
        lemma_blank_lines_keep_question(quiz, before);
        assert(events.last() == events[events.len() - 1]);
    }
}

/// The quiz is over only once an event comes in after the last answer, and
/// stays over from then on.
pub proof fn lemma_finished_after_last_answer(quiz: QuizView, event: EventView)
    requires
        quiz.well_formed(),
    ensures
        quiz_after(quiz, event).finished <==> quiz.asked == quiz.questions.len(),
        quiz.asked == quiz.questions.len() ==> action_on(quiz, event) == ActionView::Finish,
        quiz.finished ==> quiz_after(quiz, event) == quiz,
{
}

} // verus!
