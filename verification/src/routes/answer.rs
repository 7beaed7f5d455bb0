//! The handler of the answer route.

use vstd::prelude::*;
use crate::error::{Error, ErrorView};
use crate::reply::{Reply, OK};
use crate::store::Table;
use crate::types::answer::{Answer, AnswerId, AnswerView};
use crate::types::params::QueryParams;
use crate::types::question::QuestionId;

verus! {

/// Whether a form names all three fields of an answer.
pub open spec fn has_answer_fields(form: Map<Seq<char>, Seq<char>>) -> bool {
    form.contains_key("id"@) && form.contains_key("content"@) && form.contains_key("questionId"@)
}

/// The answer that a form describes.
pub open spec fn answer_of(form: Map<Seq<char>, Seq<char>>) -> AnswerView {
    AnswerView { id: form["id"@], content: form["content"@], question_id: form["questionId"@] }
}

/// Makes an answer of the form fields `id`, `content` and `questionId`,
/// stores it under its id and confirms. A form that lacks one of the three
/// is refused and the table stays as it is. Whether the question exists is
/// not looked at.
pub fn add_answer(table: &mut Table<Answer>, params: QueryParams) -> (res: Result<Reply, Error>)
    requires
        old(table).wf(),
    ensures
        final(table).wf(),
        has_answer_fields(params@) ==> {
            let id = params@["id"@];
            &&& res is Ok && res->Ok_0.status == OK && res->Ok_0.body@ == "Answer added"@
            &&& final(table)@.dom() == old(table)@.dom().insert(id)
            &&& final(table)@[id]@ == answer_of(params@)
            &&& forall|k: Seq<char>|
                k != id && old(table)@.contains_key(k) ==> final(table)@[k] == old(table)@[k]
            &&& old(table)@.contains_key(id) ==> final(table).keys() == old(table).keys()
            &&& !old(table)@.contains_key(id) ==> final(table).keys() == old(table).keys().push(id)
        },
        !has_answer_fields(params@) ==> *final(table) == *old(table) && res is Err && res->Err_0@
            == ErrorView::MissingParameters,
{
    let id = match params.get("id") {
        Some(text) => text.clone(),
        None => {
            return Err(Error::MissingParameters);
        },
    };
    let content = match params.get("content") {
        Some(text) => text.clone(),
        None => {
            return Err(Error::MissingParameters);
        },
    };
    let question_id = match params.get("questionId") {
        Some(text) => text.clone(),
        None => {
            return Err(Error::MissingParameters);
        },
    };
    let answer = Answer { id: AnswerId(id), content, question_id: QuestionId(question_id) };
    table.insert_answer(answer);
    Ok(Reply::confirmation("Answer added"))
}

} // verus!
