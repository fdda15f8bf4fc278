//! An in-memory store implementing both data-access capabilities, for
//! exercising the request layer in isolation from a real relational store.
//!
//! Both tables live in one value, mirroring how the two data-access objects
//! of a deployment share one connection pool: the referential check a new
//! answer needs can see the questions table. Record identifiers are drawn
//! from the same generator a relational store would use; the creation stamp
//! is the store's own logical clock, rendered in decimal. Deleting a
//! question deliberately leaves its answers in place: creation enforces the
//! reference, deletion does not cascade.

use vstd::prelude::*;
use crate::answers_dao::{has_answer, matching_answers, without_answer, AnswersDao};
use crate::digits::decimal_string;
use crate::errors::DBError;
use crate::ids::{check_uuid, fresh_uuid, uuid_syntax_ok};
use crate::models::{
    Answer,
    AnswerDetail,
    AnswerDetailView,
    Question,
    QuestionDetail,
    QuestionDetailView,
};
use crate::questions_dao::{has_question, without_question, QuestionsDao};

verus! {

/// The in-memory store: both tables and a logical clock.
pub struct InMemoryStore {
    question_rows: Vec<QuestionDetail>,
    answer_rows: Vec<AnswerDetail>,
    clock: u64,
}

impl InMemoryStore {
    /// The questions table, in insertion order.
    pub closed spec fn questions_model(self) -> Seq<QuestionDetailView> {
        self.question_rows.deep_view()
    }

    /// The answers table, in insertion order.
    pub closed spec fn answers_model(self) -> Seq<AnswerDetailView> {
        self.answer_rows.deep_view()
    }

    /// Every stored identifier is syntactically valid and unique within its
    /// table.
    pub closed spec fn inv(self) -> bool {
        &&& (forall|i: int|
            #![trigger self.questions_model()[i]]
            0 <= i < self.questions_model().len() ==> uuid_syntax_ok(
                self.questions_model()[i].question_uuid,
            ))
        &&& (forall|i: int, j: int|
            #![trigger self.questions_model()[i], self.questions_model()[j]]
            0 <= i < j < self.questions_model().len()
                ==> self.questions_model()[i].question_uuid
                != self.questions_model()[j].question_uuid)
        &&& (forall|i: int|
            #![trigger self.answers_model()[i]]
            0 <= i < self.answers_model().len() ==> uuid_syntax_ok(
                self.answers_model()[i].answer_uuid,
            ))
        &&& (forall|i: int, j: int|
            #![trigger self.answers_model()[i], self.answers_model()[j]]
            0 <= i < j < self.answers_model().len() ==> self.answers_model()[i].answer_uuid
                != self.answers_model()[j].answer_uuid)
    }

    /// An empty store.
    pub fn new() -> (s: Self)
        ensures
            s.inv(),
            s.questions_model() == Seq::<QuestionDetailView>::empty(),
            s.answers_model() == Seq::<AnswerDetailView>::empty(),
    {
        let s = InMemoryStore { question_rows: Vec::new(), answer_rows: Vec::new(), clock: 0 };
        proof {
            assert(s.questions_model() =~= Seq::<QuestionDetailView>::empty());
            assert(s.answers_model() =~= Seq::<AnswerDetailView>::empty());
        }
        s
    }

    /// Whether the questions table holds the identifier `id`.
    fn contains_question_id(&self, id: &String) -> (b: bool)
        ensures
            b == has_question(self.questions_model(), id@),
    {
        let mut i: usize = 0;
        while i < self.question_rows.len()
            invariant
                i <= self.question_rows.len(),
                forall|j: int|
                    #![trigger self.questions_model()[j]]
                    0 <= j < i ==> self.questions_model()[j].question_uuid != id@,
            decreases self.question_rows.len() - i,
        {
            if self.question_rows[i].question_uuid == *id {
                proof {
                    assert(self.questions_model()[i as int].question_uuid == id@);
                }
                return true;
            }
            i += 1;
        }
        false
    }

    /// Whether the answers table holds the identifier `id`.
    fn contains_answer_id(&self, id: &String) -> (b: bool)
        ensures
            b == has_answer(self.answers_model(), id@),
    {
        let mut i: usize = 0;
        while i < self.answer_rows.len()
            invariant
                i <= self.answer_rows.len(),
                forall|j: int|
                    #![trigger self.answers_model()[j]]
                    0 <= j < i ==> self.answers_model()[j].answer_uuid != id@,
            decreases self.answer_rows.len() - i,
        {
            if self.answer_rows[i].answer_uuid == *id {
                proof {
                    assert(self.answers_model()[i as int].answer_uuid == id@);
                }
                return true;
            }
            i += 1;
        }
        false
    }

    /// Advances the logical clock and returns the current stamp in decimal.
    fn next_stamp(&mut self) -> (s: String)
        ensures
            final(self).question_rows == old(self).question_rows,
            final(self).answer_rows == old(self).answer_rows,
    {
        let s = decimal_string(self.clock);
        if self.clock < u64::MAX {
            self.clock = self.clock + 1;
        }
        s
    }
}

/// Pushing onto a table pushes its view.
proof fn lemma_push_deep_view<T: DeepView>(v0: Vec<T>, v1: Vec<T>, x: T)
    requires
        v1@ == v0@.push(x),
    ensures
        v1.deep_view() == v0.deep_view().push(x.deep_view()),
{
    assert forall|j: int| 0 <= j < v1.deep_view().len() implies #[trigger] v1.deep_view()[j]
        == v0.deep_view().push(x.deep_view())[j] by {
        assert(v1.deep_view()[j] == v1@[j].deep_view());
        if j < v0@.len() {
            assert(v1@[j] == v0@[j]);
            assert(v0.deep_view()[j] == v0@[j].deep_view());
        }
    }
    assert(v1.deep_view() =~= v0.deep_view().push(x.deep_view()));
}

/// Filtering a table of valid, pairwise-distinct question identifiers keeps
/// both properties, and every kept record comes from the original table.
proof fn lemma_without_question_keeps_inv(qs: Seq<QuestionDetailView>, id: Seq<char>)
    requires
        forall|i: int| #![trigger qs[i]] 0 <= i < qs.len() ==> uuid_syntax_ok(qs[i].question_uuid),
        forall|i: int, j: int|
            #![trigger qs[i], qs[j]]
            0 <= i < j < qs.len() ==> qs[i].question_uuid != qs[j].question_uuid,
    ensures
        forall|k: int|
            #![trigger without_question(qs, id)[k]]
            0 <= k < without_question(qs, id).len() ==> exists|i: int|
                #![trigger qs[i]]
                0 <= i < qs.len() && without_question(qs, id)[k] == qs[i],
        forall|k: int|
            #![trigger without_question(qs, id)[k]]
            0 <= k < without_question(qs, id).len() ==> uuid_syntax_ok(
                without_question(qs, id)[k].question_uuid,
            ),
        forall|k: int, l: int|
            #![trigger without_question(qs, id)[k], without_question(qs, id)[l]]
            0 <= k < l < without_question(qs, id).len() ==> without_question(
                qs,
                id,
            )[k].question_uuid != without_question(qs, id)[l].question_uuid,
    decreases qs.len(),
{
    if qs.len() > 0 {
        let pre = qs.drop_last();
        lemma_without_question_keeps_inv(pre, id);
        let w = without_question(qs, id);
        let wpre = without_question(pre, id);
        assert forall|k: int| 0 <= k < w.len() implies exists|i: int|
            #![trigger qs[i]]
            0 <= i < qs.len() && #[trigger] w[k] == qs[i] by {
            if k < wpre.len() {
                let i = choose|i: int| #![trigger pre[i]] 0 <= i < pre.len() && wpre[k] == pre[i];
                assert(qs[i] == pre[i]);
            } else {
                assert(w[k] == qs[qs.len() - 1]);
            }
        }
    }
}

impl QuestionsDao for InMemoryStore {
    open spec fn questions(&self) -> Seq<QuestionDetailView> {
        self.questions_model()
    }

    open spec fn wf(&self) -> bool {
        self.inv()
    }

    fn create_question(&mut self, question: Question) -> (r: Result<QuestionDetail, DBError>)
        ensures
            final(self).answers_model() == old(self).answers_model(),
    {
        let question_uuid = fresh_uuid();
        if self.contains_question_id(&question_uuid) {
            return Err(DBError::Other("generated identifier already present".to_owned()));
        }
        let created_at = self.next_stamp();
        let d = QuestionDetail {
            question_uuid,
            title: question.title,
            description: question.description,
            created_at,
        };
        let stored = d.clone();
        let ghost stored_v = stored;
        let ghost prev_rows = self.question_rows;
        self.question_rows.push(stored);
        proof {
            lemma_push_deep_view(prev_rows, self.question_rows, stored_v);
            assert(self.answer_rows == old(self).answer_rows);
            assert(self.answers_model() == old(self).answers_model());
            let m0 = old(self).questions_model();
            let m1 = self.questions_model();
            assert(m1 == m0.push(d@));
            assert forall|i: int| 0 <= i < m1.len() implies uuid_syntax_ok(
                (#[trigger] m1[i]).question_uuid,
            ) by {
                if i < m0.len() {
                    assert(m1[i] == m0[i]);
                } else {
                    assert(m1[i] == d@);
                }
            }
            assert forall|i: int, j: int| 0 <= i < j < m1.len() implies (
            #[trigger] m1[i]).question_uuid != (#[trigger] m1[j]).question_uuid by {
                assert(m1[i] == m0[i]);
                if j < m0.len() {
                    assert(m1[j] == m0[j]);
                } else {
                    assert(m1[j] == d@);
                    assert(!has_question(m0, d@.question_uuid));
                }
            }
        }
        Ok(d)
    }

    fn get_questions(&self) -> (r: Result<Vec<QuestionDetail>, DBError>)
        ensures
            r is Ok,
    {
        let mut out: Vec<QuestionDetail> = Vec::new();
        proof {
            assert(out.deep_view() =~= self.questions_model().take(0));
        }
        let mut i: usize = 0;
        while i < self.question_rows.len()
            invariant
                i <= self.question_rows.len(),
                out.deep_view() == self.questions_model().take(i as int),
            decreases self.question_rows.len() - i,
        {
            let row = self.question_rows[i].clone();
            let ghost row_v = row;
            let ghost prev_out = out;
            out.push(row);
            proof {
                lemma_push_deep_view(prev_out, out, row_v);
                assert(out.deep_view() =~= self.questions_model().take(i as int + 1));
            }
            i += 1;
        }
        proof {
            assert(self.questions_model().take(self.question_rows.len() as int)
                =~= self.questions_model());
        }
        Ok(out)
    }

    fn delete_question(&mut self, question_uuid: String) -> (r: Result<(), DBError>)
        ensures
            final(self).answers_model() == old(self).answers_model(),
            uuid_syntax_ok(question_uuid@) ==> r is Ok,
    {
        let checked = check_uuid(question_uuid.as_str());
        if let Err(m) = checked {
            return Err(DBError::InvalidUUID(m));
        }
        let mut kept: Vec<QuestionDetail> = Vec::new();
        proof {
            assert(kept.deep_view() =~= without_question(self.questions_model().take(0), question_uuid@));
        }
        let mut i: usize = 0;
        while i < self.question_rows.len()
            invariant
                i <= self.question_rows.len(),
                kept.deep_view() == without_question(
                    self.questions_model().take(i as int),
                    question_uuid@,
                ),
            decreases self.question_rows.len() - i,
        {
            proof {
                let pre = self.questions_model().take(i as int);
                let cur = self.questions_model().take(i as int + 1);
                assert(cur.drop_last() =~= pre);
                assert(cur.last() == self.questions_model()[i as int]);
            }
            let hit = self.question_rows[i].question_uuid == question_uuid;
            if !hit {
                let row = self.question_rows[i].clone();
                let ghost row_v = row;
                let ghost prev_kept = kept;
                kept.push(row);
                proof {
                    lemma_push_deep_view(prev_kept, kept, row_v);
                }
            }
            proof {
                assert(kept.deep_view() =~= without_question(
                    self.questions_model().take(i as int + 1),
                    question_uuid@,
                ));
            }
            i += 1;
        }
        proof {
            assert(self.questions_model().take(self.question_rows.len() as int)
                =~= self.questions_model());
            lemma_without_question_keeps_inv(self.questions_model(), question_uuid@);
        }
        self.question_rows = kept;
        proof {
            assert(self.answer_rows == old(self).answer_rows);
            assert(self.answers_model() == old(self).answers_model());
            let m1 = self.questions_model();
            let w = without_question(old(self).questions_model(), question_uuid@);
            assert(m1 == w);
            assert forall|i: int| 0 <= i < m1.len() implies uuid_syntax_ok(
                (#[trigger] m1[i]).question_uuid,
            ) by {
                assert(m1[i] == w[i]);
            }
            assert forall|i: int, j: int| 0 <= i < j < m1.len() implies (
            #[trigger] m1[i]).question_uuid != (#[trigger] m1[j]).question_uuid by {
                assert(m1[i] == w[i] && m1[j] == w[j]);
            }
        }
        Ok(())
    }
}

/// Filtering a table of valid, pairwise-distinct answer identifiers keeps
/// both properties, and every kept record comes from the original table.
proof fn lemma_without_answer_keeps_inv(answers: Seq<AnswerDetailView>, id: Seq<char>)
    requires
        forall|i: int|
            #![trigger answers[i]]
            0 <= i < answers.len() ==> uuid_syntax_ok(answers[i].answer_uuid),
        forall|i: int, j: int|
            #![trigger answers[i], answers[j]]
            0 <= i < j < answers.len() ==> answers[i].answer_uuid != answers[j].answer_uuid,
    ensures
        forall|k: int|
            #![trigger without_answer(answers, id)[k]]
            0 <= k < without_answer(answers, id).len() ==> exists|i: int|
                #![trigger answers[i]]
                0 <= i < answers.len() && without_answer(answers, id)[k] == answers[i],
        forall|k: int|
            #![trigger without_answer(answers, id)[k]]
            0 <= k < without_answer(answers, id).len() ==> uuid_syntax_ok(
                without_answer(answers, id)[k].answer_uuid,
            ),
        forall|k: int, l: int|
            #![trigger without_answer(answers, id)[k], without_answer(answers, id)[l]]
            0 <= k < l < without_answer(answers, id).len() ==> without_answer(
                answers,
                id,
            )[k].answer_uuid != without_answer(answers, id)[l].answer_uuid,
    decreases answers.len(),
{
    if answers.len() > 0 {
        let pre = answers.drop_last();
        lemma_without_answer_keeps_inv(pre, id);
        let w = without_answer(answers, id);
        let wpre = without_answer(pre, id);
        assert forall|k: int| 0 <= k < w.len() implies exists|i: int|
            #![trigger answers[i]]
            0 <= i < answers.len() && #[trigger] w[k] == answers[i] by {
            if k < wpre.len() {
                let i = choose|i: int| #![trigger pre[i]] 0 <= i < pre.len() && wpre[k] == pre[i];
                assert(answers[i] == pre[i]);
            } else {
                assert(w[k] == answers[answers.len() - 1]);
            }
        }
    }
}

impl AnswersDao for InMemoryStore {
    open spec fn answers(&self) -> Seq<AnswerDetailView> {
        self.answers_model()
    }

    open spec fn question_ids(&self) -> Set<Seq<char>> {
        Set::new(|id: Seq<char>| has_question(self.questions_model(), id))
    }

    open spec fn wf(&self) -> bool {
        self.inv()
    }

    fn create_answer(&mut self, answer: Answer) -> (r: Result<AnswerDetail, DBError>)
        ensures
            final(self).questions_model() == old(self).questions_model(),
    {
        let checked = check_uuid(answer.question_uuid.as_str());
        if let Err(m) = checked {
            return Err(DBError::InvalidUUID(m));
        }
        if !self.contains_question_id(&answer.question_uuid) {
            return Err(DBError::InvalidUUID("the referenced question does not exist".to_owned()));
        }
        proof {
            assert(old(self).question_ids().contains(answer@.question_uuid));
        }
        let answer_uuid = fresh_uuid();
        if self.contains_answer_id(&answer_uuid) {
            return Err(DBError::Other("generated identifier already present".to_owned()));
        }
        let created_at = self.next_stamp();
        let d = AnswerDetail {
            answer_uuid,
            question_uuid: answer.question_uuid,
            content: answer.content,
            created_at,
        };
        let stored = d.clone();
        let ghost stored_v = stored;
        let ghost prev_rows = self.answer_rows;
        self.answer_rows.push(stored);
        proof {
            lemma_push_deep_view(prev_rows, self.answer_rows, stored_v);
            assert(self.question_rows == old(self).question_rows);
            assert(self.questions_model() == old(self).questions_model());
            assert(self.question_ids() =~= old(self).question_ids());
            let m0 = old(self).answers_model();
            let m1 = self.answers_model();
            assert(m1 == m0.push(d@));
            assert forall|i: int| 0 <= i < m1.len() implies uuid_syntax_ok(
                (#[trigger] m1[i]).answer_uuid,
            ) by {
                if i < m0.len() {
                    assert(m1[i] == m0[i]);
                } else {
                    assert(m1[i] == d@);
                }
            }
            assert forall|i: int, j: int| 0 <= i < j < m1.len() implies (
            #[trigger] m1[i]).answer_uuid != (#[trigger] m1[j]).answer_uuid by {
                assert(m1[i] == m0[i]);
                if j < m0.len() {
                    assert(m1[j] == m0[j]);
                } else {
                    assert(m1[j] == d@);
                    assert(!has_answer(m0, d@.answer_uuid));
                }
            }
        }
        Ok(d)
    }

    fn get_answers(&self, question_uuid: String) -> (r: Result<Vec<AnswerDetail>, DBError>)
        ensures
            uuid_syntax_ok(question_uuid@) ==> r is Ok,
    {
        let checked = check_uuid(question_uuid.as_str());
        if let Err(m) = checked {
            return Err(DBError::InvalidUUID(m));
        }
        let mut out: Vec<AnswerDetail> = Vec::new();
        proof {
            assert(out.deep_view() =~= matching_answers(
                self.answers_model().take(0),
                question_uuid@,
            ));
        }
        let mut i: usize = 0;
        while i < self.answer_rows.len()
            invariant
                i <= self.answer_rows.len(),
                out.deep_view() == matching_answers(
                    self.answers_model().take(i as int),
                    question_uuid@,
                ),
            decreases self.answer_rows.len() - i,
        {
            proof {
                let pre = self.answers_model().take(i as int);
                let cur = self.answers_model().take(i as int + 1);
                assert(cur.drop_last() =~= pre);
                assert(cur.last() == self.answers_model()[i as int]);
            }
            let hit = self.answer_rows[i].question_uuid == question_uuid;
            if hit {
                let row = self.answer_rows[i].clone();
                let ghost row_v = row;
                let ghost prev_out = out;
                out.push(row);
                proof {
                    lemma_push_deep_view(prev_out, out, row_v);
                }
            }
            proof {
                assert(out.deep_view() =~= matching_answers(
                    self.answers_model().take(i as int + 1),
                    question_uuid@,
                ));
            }
            i += 1;
        }
        proof {
            assert(self.answers_model().take(self.answer_rows.len() as int)
                =~= self.answers_model());
        }
        Ok(out)
    }

    fn delete_answer(&mut self, answer_uuid: String) -> (r: Result<(), DBError>)
        ensures
            final(self).questions_model() == old(self).questions_model(),
            uuid_syntax_ok(answer_uuid@) ==> r is Ok,
    {
        let checked = check_uuid(answer_uuid.as_str());
        if let Err(m) = checked {
            return Err(DBError::InvalidUUID(m));
        }
        let mut kept: Vec<AnswerDetail> = Vec::new();
        proof {
            assert(kept.deep_view() =~= without_answer(
                self.answers_model().take(0),
                answer_uuid@,
            ));
        }
        let mut i: usize = 0;
        while i < self.answer_rows.len()
            invariant
                i <= self.answer_rows.len(),
                kept.deep_view() == without_answer(
                    self.answers_model().take(i as int),
                    answer_uuid@,
                ),
            decreases self.answer_rows.len() - i,
        {
            proof {
                let pre = self.answers_model().take(i as int);
                let cur = self.answers_model().take(i as int + 1);
                assert(cur.drop_last() =~= pre);
                assert(cur.last() == self.answers_model()[i as int]);
            }
            let hit = self.answer_rows[i].answer_uuid == answer_uuid;
            if !hit {
                let row = self.answer_rows[i].clone();
                let ghost row_v = row;
                let ghost prev_kept = kept;
                kept.push(row);
                proof {
                    lemma_push_deep_view(prev_kept, kept, row_v);
                }
            }
            proof {
                assert(kept.deep_view() =~= without_answer(
                    self.answers_model().take(i as int + 1),
                    answer_uuid@,
                ));
            }
            i += 1;
        }
        proof {
            assert(self.answers_model().take(self.answer_rows.len() as int)
                =~= self.answers_model());
            lemma_without_answer_keeps_inv(self.answers_model(), answer_uuid@);
        }
        self.answer_rows = kept;
        proof {
            assert(self.question_rows == old(self).question_rows);
            assert(self.questions_model() == old(self).questions_model());
            assert(self.question_ids() =~= old(self).question_ids());
            let m1 = self.answers_model();
            let w = without_answer(old(self).answers_model(), answer_uuid@);
            assert(m1 == w);
            assert forall|i: int| 0 <= i < m1.len() implies uuid_syntax_ok(
                (#[trigger] m1[i]).answer_uuid,
            ) by {
                assert(m1[i] == w[i]);
            }
            assert forall|i: int, j: int| 0 <= i < j < m1.len() implies (
            #[trigger] m1[i]).answer_uuid != (#[trigger] m1[j]).answer_uuid by {
                assert(m1[i] == w[i] && m1[j] == w[j]);
            }
        }
        Ok(())
    }
}

} // verus!
