//! Entity records: the caller-supplied input forms and the server-populated
//! persisted ("detail") forms, together with their mathematical views.

use vstd::prelude::*;

verus! {

/// A question as supplied by a caller; the store assigns the identifier.
pub struct Question {
    pub title: String,
    pub description: String,
}

/// A persisted question, with its generated identifier and creation time.
pub struct QuestionDetail {
    pub question_uuid: String,
    pub title: String,
    pub description: String,
    pub created_at: String,
}

/// An answer as supplied by a caller; it must reference an existing question.
pub struct Answer {
    pub question_uuid: String,
    pub content: String,
}

/// A persisted answer, with its generated identifier and creation time.
pub struct AnswerDetail {
    pub answer_uuid: String,
    pub question_uuid: String,
    pub content: String,
    pub created_at: String,
}

/// The mathematical view of a `Question`.
pub ghost struct QuestionView {
    pub title: Seq<char>,
    pub description: Seq<char>,
}

/// The mathematical view of a `QuestionDetail`.
pub ghost struct QuestionDetailView {
    pub question_uuid: Seq<char>,
    pub title: Seq<char>,
    pub description: Seq<char>,
    pub created_at: Seq<char>,
}

/// The mathematical view of an `Answer`.
pub ghost struct AnswerView {
    pub question_uuid: Seq<char>,
    pub content: Seq<char>,
}

/// The mathematical view of an `AnswerDetail`.
pub ghost struct AnswerDetailView {
    pub answer_uuid: Seq<char>,
    pub question_uuid: Seq<char>,
    pub content: Seq<char>,
    pub created_at: Seq<char>,
}

impl View for Question {
    type V = QuestionView;

    open spec fn view(&self) -> QuestionView {
        QuestionView { title: self.title@, description: self.description@ }
    }
}

impl DeepView for Question {
    type V = QuestionView;

    open spec fn deep_view(&self) -> QuestionView {
        self.view()
    }
}

impl View for QuestionDetail {
    type V = QuestionDetailView;

    open spec fn view(&self) -> QuestionDetailView {
        QuestionDetailView {
            question_uuid: self.question_uuid@,
            title: self.title@,
            description: self.description@,
            created_at: self.created_at@,
        }
    }
}

impl DeepView for QuestionDetail {
    type V = QuestionDetailView;

    open spec fn deep_view(&self) -> QuestionDetailView {
        self.view()
    }
}

impl View for Answer {
    type V = AnswerView;

    open spec fn view(&self) -> AnswerView {
        AnswerView { question_uuid: self.question_uuid@, content: self.content@ }
    }
}

impl DeepView for Answer {
    type V = AnswerView;

    open spec fn deep_view(&self) -> AnswerView {
        self.view()
    }
}

impl View for AnswerDetail {
    type V = AnswerDetailView;

    open spec fn view(&self) -> AnswerDetailView {
        AnswerDetailView {
            answer_uuid: self.answer_uuid@,
            question_uuid: self.question_uuid@,
            content: self.content@,
            created_at: self.created_at@,
        }
    }
}

impl DeepView for AnswerDetail {
    type V = AnswerDetailView;

    open spec fn deep_view(&self) -> AnswerDetailView {
        self.view()
    }
}

impl Clone for QuestionDetail {
    /// An exact copy, so that the store can both keep and return a record.
    fn clone(&self) -> (r: Self)
        ensures
            r == *self,
    {
        QuestionDetail {
            question_uuid: self.question_uuid.clone(),
            title: self.title.clone(),
            description: self.description.clone(),
            created_at: self.created_at.clone(),
        }
    }
}

impl Clone for AnswerDetail {
    /// An exact copy, so that the store can both keep and return a record.
    fn clone(&self) -> (r: Self)
        ensures
            r == *self,
    {
        AnswerDetail {
            answer_uuid: self.answer_uuid.clone(),
            question_uuid: self.question_uuid.clone(),
            content: self.content.clone(),
            created_at: self.created_at.clone(),
        }
    }
}

} // verus!
