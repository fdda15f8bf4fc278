//! Request handlers: run one data-access call and translate its outcome
//! into the request-level taxonomy. Handlers never retry and never recover;
//! a storage-level failure is translated and returned, and no internal
//! detail reaches the caller of a server-side fault.

use vstd::prelude::*;
use crate::answers_dao::{matching_answers, without_answer, AnswersDao};
use crate::errors::{handler_error_of, internal_error_text, HandlerError};
use crate::ids::uuid_syntax_ok;
use crate::models::{Answer, AnswerDetail, Question, QuestionDetail};
use crate::questions_dao::{has_question, without_question, QuestionsDao};

verus! {

/// Creates a question. Every failure here is a server-side fault: there is
/// no caller-supplied identifier to reject.
pub fn create_question<D: QuestionsDao>(question: Question, questions_dao: &mut D) -> (r: Result<
    QuestionDetail,
    HandlerError,
>)
    requires
        old(questions_dao).wf(),
    ensures
        final(questions_dao).wf(),
        (r matches Ok(d) ==> ({
            &&& d@.title == question@.title
            &&& d@.description == question@.description
            &&& uuid_syntax_ok(d@.question_uuid)
            &&& !has_question(old(questions_dao).questions(), d@.question_uuid)
            &&& final(questions_dao).questions() == old(questions_dao).questions().push(d@)
        })),
        (r is Err ==> ({
            &&& (r matches Err(HandlerError::InternalError(m)) && m@ == internal_error_text())
            &&& final(questions_dao).questions() == old(questions_dao).questions()
        })),
{
    match questions_dao.create_question(question) {
        Ok(d) => Ok(d),
        Err(e) => Err(handler_error_of(e)),
    }
}

/// Lists every persisted question.
pub fn read_questions<D: QuestionsDao>(questions_dao: &D) -> (r: Result<
    Vec<QuestionDetail>,
    HandlerError,
>)
    requires
        questions_dao.wf(),
    ensures
        (r matches Ok(v) ==> v.deep_view() == questions_dao.questions()),
        (r is Err ==> (r matches Err(HandlerError::InternalError(m)) && m@
            == internal_error_text())),
{
    match questions_dao.get_questions() {
        Ok(v) => Ok(v),
        Err(e) => Err(handler_error_of(e)),
    }
}

/// Deletes a question by identifier. A malformed identifier is a caller
/// error, reported before any store access; a missing one is a silent
/// no-op.
pub fn delete_question<D: QuestionsDao>(question_uuid: String, questions_dao: &mut D) -> (r:
    Result<(), HandlerError>)
    requires
        old(questions_dao).wf(),
    ensures
        final(questions_dao).wf(),
        (!uuid_syntax_ok(question_uuid@) ==> (r matches Err(HandlerError::BadRequest(_)) && final(questions_dao).questions() == old(questions_dao).questions())),
        (uuid_syntax_ok(question_uuid@) && r is Ok ==> final(questions_dao).questions()
            == without_question(old(questions_dao).questions(), question_uuid@)),
        (uuid_syntax_ok(question_uuid@) && r is Err ==> ({
            &&& (r matches Err(HandlerError::InternalError(m)) && m@ == internal_error_text())
            &&& final(questions_dao).questions() == old(questions_dao).questions()
        })),
{
    match questions_dao.delete_question(question_uuid) {
        Ok(u) => Ok(u),
        Err(e) => Err(handler_error_of(e)),
    }
}

/// Creates an answer referencing an existing question. A malformed
/// reference and a reference to an absent question are both caller errors;
/// everything else that fails is a server-side fault.
pub fn create_answer<D: AnswersDao>(answer: Answer, answers_dao: &mut D) -> (r: Result<
    AnswerDetail,
    HandlerError,
>)
    requires
        old(answers_dao).wf(),
    ensures
        final(answers_dao).wf(),
        final(answers_dao).question_ids() == old(answers_dao).question_ids(),
        (r matches Ok(d) ==> ({
            &&& uuid_syntax_ok(answer@.question_uuid)
            &&& old(answers_dao).question_ids().contains(answer@.question_uuid)
            &&& d@.question_uuid == answer@.question_uuid
            &&& d@.content == answer@.content
            &&& uuid_syntax_ok(d@.answer_uuid)
            &&& final(answers_dao).answers() == old(answers_dao).answers().push(d@)
        })),
        (r is Err ==> final(answers_dao).answers() == old(answers_dao).answers()),
        (!uuid_syntax_ok(answer@.question_uuid) ==> r matches Err(HandlerError::BadRequest(_))),
        (uuid_syntax_ok(answer@.question_uuid) && !old(answers_dao).question_ids().contains(
            answer@.question_uuid,
        ) ==> r matches Err(HandlerError::BadRequest(_))),
        (uuid_syntax_ok(answer@.question_uuid) && old(answers_dao).question_ids().contains(
            answer@.question_uuid,
        ) && r is Err ==> (r matches Err(HandlerError::InternalError(m)) && m@
            == internal_error_text())),
{
    match answers_dao.create_answer(answer) {
        Ok(d) => Ok(d),
        Err(e) => Err(handler_error_of(e)),
    }
}

/// Lists every answer referencing the given question. A malformed
/// identifier is a caller error; a question without answers yields the
/// empty listing.
pub fn read_answers<D: AnswersDao>(question_uuid: String, answers_dao: &D) -> (r: Result<
    Vec<AnswerDetail>,
    HandlerError,
>)
    requires
        answers_dao.wf(),
    ensures
        (!uuid_syntax_ok(question_uuid@) ==> r matches Err(HandlerError::BadRequest(_))),
        (uuid_syntax_ok(question_uuid@) ==> ({
            &&& (r matches Ok(v) ==> v.deep_view() == matching_answers(
                answers_dao.answers(),
                question_uuid@,
            ))
            &&& (r is Err ==> (r matches Err(HandlerError::InternalError(m)) && m@
                == internal_error_text()))
        })),
{
    match answers_dao.get_answers(question_uuid) {
        Ok(v) => Ok(v),
        Err(e) => Err(handler_error_of(e)),
    }
}

/// Deletes an answer by identifier. A malformed identifier is a caller
/// error, reported before any store access; a missing one is a silent
/// no-op.
pub fn delete_answer<D: AnswersDao>(answer_uuid: String, answers_dao: &mut D) -> (r: Result<
    (),
    HandlerError,
>)
    requires
        old(answers_dao).wf(),
    ensures
        final(answers_dao).wf(),
        final(answers_dao).question_ids() == old(answers_dao).question_ids(),
        (!uuid_syntax_ok(answer_uuid@) ==> (r matches Err(HandlerError::BadRequest(_)) && final(answers_dao).answers() == old(answers_dao).answers())),
        (uuid_syntax_ok(answer_uuid@) && r is Ok ==> final(answers_dao).answers()
            == without_answer(old(answers_dao).answers(), answer_uuid@)),
        (uuid_syntax_ok(answer_uuid@) && r is Err ==> ({
            &&& (r matches Err(HandlerError::InternalError(m)) && m@ == internal_error_text())
            &&& final(answers_dao).answers() == old(answers_dao).answers()
        })),
{
    match answers_dao.delete_answer(answer_uuid) {
        Ok(u) => Ok(u),
        Err(e) => Err(handler_error_of(e)),
    }
}

} // verus!
