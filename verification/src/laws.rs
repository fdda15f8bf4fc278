//! Properties that relate the contracts of several operations, stated and
//! proved over the store model.

use vstd::prelude::*;
use crate::answers_dao::{has_answer, matching_answers, without_answer};
use crate::models::{AnswerDetailView, QuestionDetailView};
use crate::questions_dao::{has_question, without_question};

verus! {

/// Listing the answers of a question that nothing answers yields the empty
/// sequence: if no answer in the table references `q`, the listing that
/// `get_answers` returns for `q` holds nothing.
pub proof fn lemma_no_answers_empty(answers: Seq<AnswerDetailView>, q: Seq<char>)
    requires
        forall|i: int|
            #![trigger answers[i]]
            0 <= i < answers.len() ==> answers[i].question_uuid != q,
    ensures
        matching_answers(answers, q) == Seq::<AnswerDetailView>::empty(),
    decreases answers.len(),
{
    if answers.len() > 0 {
        lemma_no_answers_empty(answers.drop_last(), q);
    }
}

/// Round trip: once an answer is persisted, listing the answers of its
/// question includes exactly that record — the listing for the new table is
/// the old listing with the new record at the end, and in particular it
/// contains the record.
pub proof fn lemma_created_answer_listed(answers: Seq<AnswerDetailView>, d: AnswerDetailView)
    ensures
        matching_answers(answers.push(d), d.question_uuid) == matching_answers(
            answers,
            d.question_uuid,
        ).push(d),
        matching_answers(answers.push(d), d.question_uuid).contains(d),
{
    let s = answers.push(d);
    assert(s.drop_last() =~= answers);
    assert(s.last() == d);
    let m = matching_answers(answers, d.question_uuid).push(d);
    assert(m[m.len() - 1] == d);
    assert(m.contains(d));
}

/// Deleting an identifier no question carries leaves the questions table
/// exactly as it was.
pub proof fn lemma_delete_absent_question(qs: Seq<QuestionDetailView>, id: Seq<char>)
    requires
        !has_question(qs, id),
    ensures
        without_question(qs, id) == qs,
    decreases qs.len(),
{
    if qs.len() > 0 {
        let pre = qs.drop_last();
        assert(qs[qs.len() - 1].question_uuid != id);
        assert(!has_question(pre, id)) by {
            if has_question(pre, id) {
                let i = choose|i: int| #![trigger pre[i]] 0 <= i < pre.len() && pre[i].question_uuid == id;
                assert(qs[i].question_uuid == id);
            }
        }
        lemma_delete_absent_question(pre, id);
        assert(without_question(qs, id) =~= qs);
    }
}

/// Deleting an identifier no answer carries leaves the answers table
/// exactly as it was.
pub proof fn lemma_delete_absent_answer(answers: Seq<AnswerDetailView>, id: Seq<char>)
    requires
        !has_answer(answers, id),
    ensures
        without_answer(answers, id) == answers,
    decreases answers.len(),
{
    if answers.len() > 0 {
        let pre = answers.drop_last();
        assert(answers[answers.len() - 1].answer_uuid != id);
        assert(!has_answer(pre, id)) by {
            if has_answer(pre, id) {
                let i = choose|i: int| #![trigger pre[i]] 0 <= i < pre.len() && pre[i].answer_uuid == id;
                assert(answers[i].answer_uuid == id);
            }
        }
        lemma_delete_absent_answer(pre, id);
        assert(without_answer(answers, id) =~= answers);
    }
}

} // verus!
