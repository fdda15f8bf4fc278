//! Data-access capability for questions: create, list, delete, against a
//! store modelled as the sequence of persisted records.

use vstd::prelude::*;
use crate::errors::DBError;
use crate::ids::uuid_syntax_ok;
use crate::models::{Question, QuestionDetail, QuestionDetailView};

verus! {

/// Whether some question in `qs` carries the identifier `id`.
pub open spec fn has_question(qs: Seq<QuestionDetailView>, id: Seq<char>) -> bool {
    exists|i: int| #![trigger qs[i]] 0 <= i < qs.len() && qs[i].question_uuid == id
}

/// `qs` with every question carrying `id` removed, order otherwise kept.
pub open spec fn without_question(qs: Seq<QuestionDetailView>, id: Seq<char>) -> Seq<
    QuestionDetailView,
>
    decreases qs.len(),
{
    if qs.len() == 0 {
        Seq::empty()
    } else if qs.last().question_uuid == id {
        without_question(qs.drop_last(), id)
    } else {
        without_question(qs.drop_last(), id).push(qs.last())
    }
}

/// The persistence operations a question needs, hiding how the store works.
///
/// An implementor exposes its table of persisted questions as `questions()`
/// and its own well-formedness as `wf()`. Identifiers are validated before
/// any store access: a malformed identifier is rejected as `InvalidUUID`
/// with the store untouched, and every other failure is reported as the
/// opaque `Other` with the store likewise untouched.
pub trait QuestionsDao: Sized {
    /// The questions the store currently holds, in insertion order.
    spec fn questions(&self) -> Seq<QuestionDetailView>;

    /// The implementor's internal well-formedness.
    spec fn wf(&self) -> bool;

    /// Persists a new question. The store assigns a fresh identifier —
    /// syntactically valid and distinct from every stored one — and a
    /// creation stamp, and echoes the given title and description. On
    /// failure the store is unchanged and the failure is opaque.
    fn create_question(&mut self, question: Question) -> (r: Result<QuestionDetail, DBError>)
        requires
            old(self).wf(),
        ensures
            final(self).wf(),
            (r matches Ok(d) ==> ({
                &&& d@.title == question@.title
                &&& d@.description == question@.description
                &&& uuid_syntax_ok(d@.question_uuid)
                &&& !has_question(old(self).questions(), d@.question_uuid)
                &&& final(self).questions() == old(self).questions().push(d@)
            })),
            (r is Err ==> (r matches Err(DBError::Other(_)) && final(self).questions() == old(self).questions())),
    ;

    /// Returns every persisted question.
    fn get_questions(&self) -> (r: Result<Vec<QuestionDetail>, DBError>)
        requires
            self.wf(),
        ensures
            (r matches Ok(v) ==> v.deep_view() == self.questions()),
            (r is Err ==> r matches Err(DBError::Other(_))),
    ;

    /// Deletes the question carrying the given identifier. A malformed
    /// identifier is rejected before any store access; deleting an absent
    /// identifier is a silent no-op.
    fn delete_question(&mut self, question_uuid: String) -> (r: Result<(), DBError>)
        requires
            old(self).wf(),
        ensures
            final(self).wf(),
            (!uuid_syntax_ok(question_uuid@) ==> (r matches Err(DBError::InvalidUUID(_)) && final(self).questions() == old(self).questions())),
            (uuid_syntax_ok(question_uuid@) && r is Ok ==> final(self).questions()
                == without_question(old(self).questions(), question_uuid@)),
            (uuid_syntax_ok(question_uuid@) && r is Err ==> (r matches Err(DBError::Other(_))
                && final(self).questions() == old(self).questions())),
    ;
}

} // verus!
