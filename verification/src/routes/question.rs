//! The handlers of the question routes. Each takes the inputs that the
//! transport layer has parsed and the table of questions, and gives back
//! the answer to send or the error to report.

use vstd::prelude::*;
use crate::error::{Error, ErrorView};
use crate::reply::{JsonReply, Reply, OK};
use crate::store::{inserted, lookup, presence, Table};
use crate::types::pagination::{extract_pagination, extraction, Pagination};
use crate::types::params::QueryParams;
use crate::types::question::{question_views, Question, QuestionId, QuestionView};

verus! {

/// The part of `all` that `range` selects once its end is cut down to the
/// length of `all`. A range that then still starts behind its end, which is
/// to say behind the end of `all`, selects nothing and is an error.
pub open spec fn page_of(all: Seq<QuestionView>, range: Pagination) -> Result<
    Seq<QuestionView>,
    ErrorView,
> {
    let cut = range.saturated(all.len() as usize);
    if cut.start <= cut.end {
        Ok(all.subrange(cut.start as int, cut.end as int))
    } else {
        Err(ErrorView::OutOfRange)
    }
}

/// The answer to a list query: everything where no parameter is given, else
/// the page that the parameters ask for.
pub open spec fn listing(params: Map<Seq<char>, Seq<char>>, all: Seq<QuestionView>) -> Result<
    Seq<QuestionView>,
    ErrorView,
> {
    if params.is_empty() {
        Ok(all)
    } else {
        match extraction(params) {
            Ok(range) => page_of(all, range),
            Err(e) => Err(e),
        }
    }
}

/// Whether `res` is the outcome `expected`, questions and errors compared by
/// their content.
pub open spec fn is_listing(res: Result<Vec<Question>, Error>, expected: Result<
    Seq<QuestionView>,
    ErrorView,
>) -> bool {
    match expected {
        Ok(questions) => res is Ok && question_views(res->Ok_0@) == questions,
        Err(e) => res is Err && res->Err_0@ == e,
    }
}

/// Copies out of `all` the questions that `range` selects, its end cut down
/// to the length of `all` first.
pub fn page(all: &Vec<Question>, range: Pagination) -> (res: Result<Vec<Question>, Error>)
    ensures
        is_listing(res, page_of(question_views(all@), range)),
{
    let cut = range.saturate(all.len());
    if cut.start > cut.end {
        return Err(Error::OutOfRange);
    }
    let mut res: Vec<Question> = Vec::new();
    let mut i: usize = cut.start;
    while i < cut.end
        invariant
            cut.start <= i <= cut.end <= all@.len(),
            res@.len() == i - cut.start,
            forall|j: int| 0 <= j < res@.len() ==> (#[trigger] res@[j])@ == all@[cut.start + j]@,
        decreases cut.end - i,
    {
        res.push(all[i].clone());
        i = i + 1;
    }
    assert(question_views(res@) =~= question_views(all@).subrange(
        cut.start as int,
        cut.end as int,
    ));
    Ok(res)
}

/// Whether `res` is the successful reply that carries `expected`, or the
/// error that `expected` is.
pub open spec fn is_listing_reply(res: Result<JsonReply<Vec<Question>>, Error>, expected: Result<
    Seq<QuestionView>,
    ErrorView,
>) -> bool {
    match expected {
        Ok(questions) => res is Ok && res->Ok_0.status == OK && question_views(res->Ok_0.value@)
            == questions,
        Err(e) => res is Err && res->Err_0@ == e,
    }
}

/// Lists the questions. Without parameters the answer holds every question
/// in the table's listing order; with parameters, the page between `start`
/// and `end`. A failure of the extraction is handed on as it is.
pub fn get_questions(params: QueryParams, table: &Table<Question>) -> (res: Result<
    JsonReply<Vec<Question>>,
    Error,
>)
    requires
        table.wf(),
    ensures
        is_listing_reply(res, listing(params@, question_views(table.values()))),
{
    if !params.is_empty() {
        let pagination = match extract_pagination(params) {
            Ok(pagination) => pagination,
            Err(e) => {
                return Err(e);
            },
        };
        let all = table.list_questions();
        match page(&all, pagination) {
            Ok(selected) => Ok(JsonReply::ok(selected)),
            Err(e) => Err(e),
        }
    } else {
        Ok(JsonReply::ok(table.list_questions()))
    }
}

/// Answers with the question stored under `id`.
pub fn get_one_question(id: String, table: &Table<Question>) -> (res: Result<
    JsonReply<Question>,
    Error,
>)
    requires
        table.wf(),
    ensures
        match lookup(table@, id@) {
            Ok(stored) => res is Ok && res->Ok_0.status == OK && res->Ok_0.value@ == stored@,
            Err(e) => res is Err && res->Err_0@ == e,
        },
{
    match table.get_question(&QuestionId(id)) {
        Ok(question) => Ok(JsonReply::ok(question)),
        Err(e) => Err(e),
    }
}

/// Whether `res` confirms with `text` where `expected` is a success, and is
/// the error that `expected` is where it is none.
pub open spec fn is_confirmation(
    res: Result<Reply, Error>,
    expected: Result<(), ErrorView>,
    text: Seq<char>,
) -> bool {
    match expected {
        Ok(_) => res is Ok && res->Ok_0.status == OK && res->Ok_0.body@ == text,
        Err(e) => res is Err && res->Err_0@ == e,
    }
}

/// Stores `question` under its id and confirms.
pub fn add_question(table: &mut Table<Question>, question: Question) -> (res: Result<
    Reply,
    Error,
>)
    requires
        old(table).wf(),
    ensures
        final(table).wf(),
        final(table)@ == inserted(old(table)@, question),
        old(table)@.contains_key(question.id@) ==> final(table).keys() == old(table).keys(),
        !old(table)@.contains_key(question.id@) ==> final(table).keys() == old(table).keys().push(
            question.id@,
        ),
        is_confirmation(res, Ok(()), "Question added!"@),
{
    table.insert_question(question);
    Ok(Reply::confirmation("Question added!"))
}

/// Replaces the question stored under `id` by `question` and confirms.
/// Where nothing is stored under `id`, the table stays as it is.
pub fn update_question(id: String, table: &mut Table<Question>, question: Question) -> (res:
    Result<Reply, Error>)
    requires
        old(table).wf(),
    ensures
        final(table).wf(),
        final(table).keys() == old(table).keys(),
        is_confirmation(res, presence(old(table)@, id@), "Question updated!"@),
        res is Ok ==> final(table)@ == old(table)@.insert(id@, question),
        res is Err ==> *final(table) == *old(table),
{
    match table.update_question(&QuestionId(id), question) {
        Ok(()) => Ok(Reply::confirmation("Question updated!")),
        Err(e) => Err(e),
    }
}

/// Removes the question stored under `id` and confirms. Where nothing is
/// stored under `id`, the table stays as it is.
pub fn delete_question(id: String, table: &mut Table<Question>) -> (res: Result<Reply, Error>)
    requires
        old(table).wf(),
    ensures
        final(table).wf(),
        is_confirmation(res, presence(old(table)@, id@), "Question deleted"@),
        final(table)@ == old(table)@.remove(id@),
        res is Ok ==> final(table).keys() == old(table).keys().remove(
            old(table).keys().index_of(id@),
        ),
        res is Err ==> *final(table) == *old(table),
{
    match table.delete_question(&QuestionId(id)) {
        Ok(()) => Ok(Reply::confirmation("Question deleted")),
        Err(e) => Err(e),
    }
}

} // verus!
