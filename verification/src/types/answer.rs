//! Answers and their identifiers.

use vstd::prelude::*;
use crate::types::question::QuestionId;

verus! {

/// The key under which an answer is stored.
#[derive(Debug, PartialEq, Eq, Hash)]
pub struct AnswerId(pub String);

impl View for AnswerId {
    type V = Seq<char>;

    open spec fn view(&self) -> Seq<char> {
        self.0@
    }
}

impl Clone for AnswerId {
    fn clone(&self) -> (res: Self)
        ensures
            res@ == self@,
    {
        AnswerId(self.0.clone())
    }
}

/// An answer to a question. Nothing requires that the question exists.
#[derive(Debug)]
pub struct Answer {
    pub id: AnswerId,
    pub content: String,
    pub question_id: QuestionId,
}

/// The mathematical content of an [`Answer`].
pub struct AnswerView {
    pub id: Seq<char>,
    pub content: Seq<char>,
    pub question_id: Seq<char>,
}

impl View for Answer {
    type V = AnswerView;

    open spec fn view(&self) -> AnswerView {
        AnswerView { id: self.id@, content: self.content@, question_id: self.question_id@ }
    }
}

impl Clone for Answer {
    fn clone(&self) -> (res: Self)
        ensures
            res@ == self@,
    {
        Answer {
            id: self.id.clone(),
            content: self.content.clone(),
            question_id: self.question_id.clone(),
        }
    }
}

} // verus!
