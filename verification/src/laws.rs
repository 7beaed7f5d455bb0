//! Laws of the store that relate several of its operations. Each is stated
//! over the mappings and outcomes in which the operations' own contracts
//! speak.

use vstd::prelude::*;
use crate::error::ErrorView;
use crate::store::{inserted, lookup, presence};
use crate::types::question::Question;

verus! {

/// The table after the questions of `batch` were inserted one after the
/// other, each under its own id.
pub open spec fn inserted_all(table: Map<Seq<char>, Question>, batch: Seq<Question>) -> Map<
    Seq<char>,
    Question,
>
    decreases batch.len(),
{
    if batch.len() == 0 {
        table
    } else {
        inserted(inserted_all(table, batch.drop_last()), batch.last())
    }
}

/// A question that was inserted is found under its id, as it was inserted.
pub proof fn law_get_after_insert(table: Map<Seq<char>, Question>, question: Question)
    ensures
        lookup(inserted(table, question), question.id@) == Ok::<Question, ErrorView>(question),
{
}

/// An insert leaves what is stored under every other id as it was.
pub proof fn law_insert_keeps_others(
    table: Map<Seq<char>, Question>,
    question: Question,
    other: Seq<char>,
)
    requires
        other != question.id@,
    ensures
        lookup(inserted(table, question), other) == lookup(table, other),
{
}

/// After a delete, nothing is found under the deleted id.
pub proof fn law_get_after_delete(table: Map<Seq<char>, Question>, id: Seq<char>)
    ensures
        lookup(table.remove(id), id) == Err::<Question, ErrorView>(ErrorView::QuestionNotFound),
{
}

/// Deleting an id under which nothing is stored fails, leaves the table as
/// it is, and so fails in the same way when it is tried again.
pub proof fn law_delete_absent_twice(table: Map<Seq<char>, Question>, id: Seq<char>)
    requires
        !table.contains_key(id),
    ensures
        presence(table, id) == Err::<(), ErrorView>(ErrorView::QuestionNotFound),
        table.remove(id) == table,
        presence(table.remove(id), id) == Err::<(), ErrorView>(ErrorView::QuestionNotFound),
{
}

/// After a delete that succeeded, a second delete of the same id fails.
pub proof fn law_delete_twice(table: Map<Seq<char>, Question>, id: Seq<char>)
    ensures
        presence(table.remove(id), id) == Err::<(), ErrorView>(ErrorView::QuestionNotFound),
{
}

/// Inserts of questions with pairwise distinct ids lose nothing: in
/// whatever order the inserts take effect, each question is found under its
/// id afterwards, as it was inserted.
pub proof fn law_no_lost_insert(table: Map<Seq<char>, Question>, batch: Seq<Question>, i: int)
    requires
        0 <= i < batch.len(),
        forall|a: int, b: int|
            0 <= a < batch.len() && 0 <= b < batch.len() && a != b ==> batch[a].id@ != batch[b].id@,
    ensures
        lookup(inserted_all(table, batch), batch[i].id@) == Ok::<Question, ErrorView>(batch[i]),
    decreases batch.len(),
{
    let rest = batch.drop_last();
    let last = batch.last();
    if i == batch.len() - 1 {
        law_get_after_insert(inserted_all(table, rest), last);
    } else {
        assert forall|a: int, b: int|
            0 <= a < rest.len() && 0 <= b < rest.len() && a != b implies rest[a].id@
            != rest[b].id@ by {
            assert(rest[a] == batch[a] && rest[b] == batch[b]);
        }
        assert(rest[i] == batch[i]);
        law_no_lost_insert(table, rest, i);
        law_insert_keeps_others(inserted_all(table, rest), last, batch[i].id@);
    }
}

} // verus!
