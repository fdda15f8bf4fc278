//! Data-access capability for answers: create, list by question, delete,
//! with the extra branch a referential check at creation time needs.

use vstd::prelude::*;
use crate::errors::DBError;
use crate::ids::uuid_syntax_ok;
use crate::models::{Answer, AnswerDetail, AnswerDetailView};

verus! {

/// Whether some answer in `answers` carries the identifier `id`.
pub open spec fn has_answer(answers: Seq<AnswerDetailView>, id: Seq<char>) -> bool {
    exists|i: int| #![trigger answers[i]] 0 <= i < answers.len() && answers[i].answer_uuid == id
}

/// The answers in `answers` that reference the question `q`, order kept.
pub open spec fn matching_answers(answers: Seq<AnswerDetailView>, q: Seq<char>) -> Seq<
    AnswerDetailView,
>
    decreases answers.len(),
{
    if answers.len() == 0 {
        Seq::empty()
    } else if answers.last().question_uuid == q {
        matching_answers(answers.drop_last(), q).push(answers.last())
    } else {
        matching_answers(answers.drop_last(), q)
    }
}

/// `answers` with every answer carrying `id` removed, order otherwise kept.
pub open spec fn without_answer(answers: Seq<AnswerDetailView>, id: Seq<char>) -> Seq<
    AnswerDetailView,
>
    decreases answers.len(),
{
    if answers.len() == 0 {
        Seq::empty()
    } else if answers.last().answer_uuid == id {
        without_answer(answers.drop_last(), id)
    } else {
        without_answer(answers.drop_last(), id).push(answers.last())
    }
}

/// The persistence operations an answer needs, hiding how the store works.
///
/// An implementor exposes its table of persisted answers as `answers()` and
/// the identifiers a reference can be satisfied against as `question_ids()`.
/// Identifiers are validated before any store access, and a rejected
/// reference — the referenced question does not exist — reads identically
/// to a malformed identifier, never as an opaque fault.
pub trait AnswersDao: Sized {
    /// The answers the store currently holds, in insertion order.
    spec fn answers(&self) -> Seq<AnswerDetailView>;

    /// The question identifiers an answer may reference.
    spec fn question_ids(&self) -> Set<Seq<char>>;

    /// The implementor's internal well-formedness.
    spec fn wf(&self) -> bool;

    /// Persists a new answer referencing an existing question. A malformed
    /// reference is rejected before any store access, and a syntactically
    /// valid reference to an absent question is rejected with the same
    /// error kind. On success the store assigns a fresh identifier and a
    /// creation stamp and echoes the reference and the content; on failure
    /// the store is unchanged.
    fn create_answer(&mut self, answer: Answer) -> (r: Result<AnswerDetail, DBError>)
        requires
            old(self).wf(),
        ensures
            final(self).wf(),
            final(self).question_ids() == old(self).question_ids(),
            (r matches Ok(d) ==> ({
                &&& uuid_syntax_ok(answer@.question_uuid)
                &&& old(self).question_ids().contains(answer@.question_uuid)
                &&& d@.question_uuid == answer@.question_uuid
                &&& d@.content == answer@.content
                &&& uuid_syntax_ok(d@.answer_uuid)
                &&& !has_answer(old(self).answers(), d@.answer_uuid)
                &&& final(self).answers() == old(self).answers().push(d@)
            })),
            (r is Err ==> final(self).answers() == old(self).answers()),
            (!uuid_syntax_ok(answer@.question_uuid) ==> r matches Err(DBError::InvalidUUID(_))),
            (uuid_syntax_ok(answer@.question_uuid) && !old(self).question_ids().contains(
                answer@.question_uuid,
            ) ==> r matches Err(DBError::InvalidUUID(_))),
            (uuid_syntax_ok(answer@.question_uuid) && old(self).question_ids().contains(
                answer@.question_uuid,
            ) && r is Err ==> r matches Err(DBError::Other(_))),
    ;

    /// Returns every answer referencing the given question. A malformed
    /// identifier is rejected before any store access; a question with no
    /// answers yields the empty listing, not an error.
    fn get_answers(&self, question_uuid: String) -> (r: Result<Vec<AnswerDetail>, DBError>)
        requires
            self.wf(),
        ensures
            (!uuid_syntax_ok(question_uuid@) ==> r matches Err(DBError::InvalidUUID(_))),
            (uuid_syntax_ok(question_uuid@) ==> ({
                &&& (r matches Ok(v) ==> v.deep_view() == matching_answers(
                    self.answers(),
                    question_uuid@,
                ))
                &&& (r is Err ==> r matches Err(DBError::Other(_)))
            })),
    ;

    /// Deletes the answer carrying the given identifier. A malformed
    /// identifier is rejected before any store access; deleting an absent
    /// identifier is a silent no-op.
    fn delete_answer(&mut self, answer_uuid: String) -> (r: Result<(), DBError>)
        requires
            old(self).wf(),
        ensures
            final(self).wf(),
            final(self).question_ids() == old(self).question_ids(),
            (!uuid_syntax_ok(answer_uuid@) ==> (r matches Err(DBError::InvalidUUID(_)) && final(self).answers() == old(self).answers())),
            (uuid_syntax_ok(answer_uuid@) && r is Ok ==> final(self).answers() == without_answer(
                old(self).answers(),
                answer_uuid@,
            )),
            (uuid_syntax_ok(answer_uuid@) && r is Err ==> (r matches Err(DBError::Other(_))
                && final(self).answers() == old(self).answers())),
    ;
}

} // verus!
