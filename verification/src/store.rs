//! The entity store: two tables, one of questions and one of answers, each
//! mapping an identifier's text to the record stored under it.

use vstd::prelude::*;
use vstd::string::*;
use crate::error::{Error, ErrorView};
use crate::types::answer::Answer;
use crate::types::question::{question_views, Question, QuestionId};

verus! {

/// A table of records under textual keys. No key occurs twice. The entries
/// are listed in the order in which their keys first came in.
pub struct Table<V> {
    names: Vec<String>,
    items: Vec<V>,
}

impl<V> View for Table<V> {
    type V = Map<Seq<char>, V>;

    /// The table as a mapping from keys to records.
    open spec fn view(&self) -> Map<Seq<char>, V> {
        Map::new(
            |k: Seq<char>| self.keys().contains(k),
            |k: Seq<char>| self.values()[self.keys().index_of(k)],
        )
    }
}

/// In a list without repetition, an item is found where it stands.
pub proof fn lemma_index_of_unique<A>(s: Seq<A>, i: int)
    requires
        s.no_duplicates(),
        0 <= i < s.len(),
    ensures
        s.contains(s[i]),
        s.index_of(s[i]) == i,
{
    assert(s.contains(s[i]));
    let j = s.index_of(s[i]);
    assert(s[j] == s[i]);
}

impl<V> Table<V> {
    /// The keys in listing order.
    pub closed spec fn keys(&self) -> Seq<Seq<char>> {
        self.names@.map_values(|k: String| k@)
    }

    /// The records in listing order: the record at a position belongs to the
    /// key at that position.
    pub closed spec fn values(&self) -> Seq<V> {
        self.items@
    }

    /// The table's invariant: one record for each key, and no key twice.
    pub open spec fn wf(&self) -> bool {
        &&& self.keys().len() == self.values().len()
        &&& self.keys().no_duplicates()
    }

    /// An empty table.
    pub fn new() -> (table: Self)
        ensures
            table.wf(),
            table.keys() == Seq::<Seq<char>>::empty(),
            table.values() == Seq::<V>::empty(),
            table@ == Map::<Seq<char>, V>::empty(),
    {
        Table { names: Vec::new(), items: Vec::new() }
    }

    /// The number of entries.
    pub fn len(&self) -> (n: usize)
        requires
            self.wf(),
        ensures
            n == self.keys().len(),
            n == self.values().len(),
    {
        self.items.len()
    }

    /// The key at position `i` of the listing.
    pub fn key_at(&self, i: usize) -> (key: &String)
        requires
            self.wf(),
            i < self.keys().len(),
        ensures
            key@ == self.keys()[i as int],
    {
        &self.names[i]
    }

    /// The record at position `i` of the listing.
    pub fn value_at(&self, i: usize) -> (value: &V)
        requires
            self.wf(),
            i < self.values().len(),
        ensures
            *value == self.values()[i as int],
            self@.contains_key(self.keys()[i as int]),
            *value == self@[self.keys()[i as int]],
    {
        proof {
            lemma_index_of_unique(self.keys(), i as int);
        }
        &self.items[i]
    }

    /// Where `key` stands in the listing, if it is in the table.
    fn position(&self, key: &str) -> (res: Option<usize>)
        requires
            self.wf(),
        ensures
            match res {
                Some(i) => i < self.keys().len() && self.keys()[i as int] == key@
                    && self.keys().index_of(key@) == i,
                None => !self.keys().contains(key@),
            },
    {
        let wanted = String::from_str(key);
        let mut i: usize = 0;
        while i < self.names.len()
            invariant
                self.wf(),
                i <= self.names.len(),
                wanted@ == key@,
                forall|j: int| 0 <= j < i ==> self.keys()[j] != key@,
            decreases self.names.len() - i,
        {
            if self.names[i] == wanted {
                proof {
                    lemma_index_of_unique(self.keys(), i as int);
                }
                return Some(i);
            }
            i = i + 1;
        }
        None
    }

    /// Whether a record is stored under `key`.
    pub fn contains_key(&self, key: &str) -> (present: bool)
        requires
            self.wf(),
        ensures
            present == self@.contains_key(key@),
    {
        self.position(key).is_some()
    }

    /// The record stored under `key`, if there is one.
    pub fn get(&self, key: &str) -> (res: Option<&V>)
        requires
            self.wf(),
        ensures
            match res {
                Some(value) => self@.contains_key(key@) && *value == self@[key@],
                None => !self@.contains_key(key@),
            },
    {
        match self.position(key) {
            Some(i) => Some(&self.items[i]),
            None => None,
        }
    }

    /// Stores `value` under `key`. A record already stored under `key` is
    /// replaced and keeps its place in the listing; a new key goes to the end.
    pub fn insert(&mut self, key: String, value: V)
        requires
            old(self).wf(),
        ensures
            final(self).wf(),
            final(self)@ == old(self)@.insert(key@, value),
            old(self)@.contains_key(key@) ==> final(self).keys() == old(self).keys(),
            !old(self)@.contains_key(key@) ==> final(self).keys() == old(self).keys().push(key@),
    {
        match self.position(key.as_str()) {
            Some(i) => {
                self.items.set(i, value);
                proof {
                    Self::lemma_replaced(*old(self), *self, i as int, value);
                }
            },
            None => {
                self.names.push(key);
                self.items.push(value);
                proof {
                    assert(self.keys() =~= old(self).keys().push(key@));
                    Self::lemma_appended(*old(self), *self, key@, value);
                }
            },
        }
    }

    /// Replaces the record stored under `key` by `value`, if there is one.
    /// The key stays as it is, whatever `value` holds. Without a record under
    /// `key` nothing changes.
    pub fn update(&mut self, key: &str, value: V) -> (found: bool)
        requires
            old(self).wf(),
        ensures
            final(self).wf(),
            found == old(self)@.contains_key(key@),
            found ==> final(self)@ == old(self)@.insert(key@, value),
            final(self).keys() == old(self).keys(),
            !found ==> *final(self) == *old(self),
    {
        match self.position(key) {
            Some(i) => {
                self.items.set(i, value);
                proof {
                    Self::lemma_replaced(*old(self), *self, i as int, value);
                }
                true
            },
            None => false,
        }
    }

    /// Takes the record stored under `key` out of the table, if there is
    /// one. The other entries keep their order. Without a record under `key`
    /// nothing changes.
    pub fn remove(&mut self, key: &str) -> (res: Option<V>)
        requires
            old(self).wf(),
        ensures
            final(self).wf(),
            match res {
                Some(value) => {
                    &&& old(self)@.contains_key(key@)
                    &&& value == old(self)@[key@]
                    &&& final(self)@ == old(self)@.remove(key@)
                    &&& final(self).keys() == old(self).keys().remove(
                        old(self).keys().index_of(key@),
                    )
                },
                None => !old(self)@.contains_key(key@) && *final(self) == *old(self),
            },
    {
        match self.position(key) {
            Some(i) => {
                self.names.remove(i);
                let value = self.items.remove(i);
                proof {
                    Self::lemma_removed(*old(self), *self, i as int);
                }
                Some(value)
            },
            None => None,
        }
    }

    proof fn lemma_replaced(before: Self, after: Self, i: int, value: V)
        requires
            before.wf(),
            0 <= i < before.keys().len(),
            after.names == before.names,
            after.items@ == before.items@.update(i, value),
        ensures
            after.wf(),
            after.keys() == before.keys(),
            after@ == before@.insert(before.keys()[i], value),
    {
        let key = before.keys()[i];
        lemma_index_of_unique(before.keys(), i);
        assert forall|k: Seq<char>| #[trigger] after@.contains_key(k) implies after@[k]
            == before@.insert(key, value)[k] by {
            let j = before.keys().index_of(k);
            lemma_index_of_unique(before.keys(), j);
        }
    }

    proof fn lemma_appended(before: Self, after: Self, key: Seq<char>, value: V)
        requires
            before.wf(),
            !before.keys().contains(key),
            after.keys() == before.keys().push(key),
            after.items@ == before.items@.push(value),
        ensures
            after.wf(),
            after@ == before@.insert(key, value),
    {
        let n = before.keys().len() as int;
        assert(after.keys().no_duplicates());
        lemma_index_of_unique(after.keys(), n);
        assert forall|k: Seq<char>| before.keys().contains(k) implies after.keys().contains(k) by {
            let j = before.keys().index_of(k);
            assert(after.keys()[j] == k);
        }
        assert forall|k: Seq<char>| #[trigger] after@.contains_key(k) && k != key implies after@[k]
            == before@[k] by {
            let j = before.keys().index_of(k);
            lemma_index_of_unique(after.keys(), j);
        }
    }

    proof fn lemma_removed(before: Self, after: Self, i: int)
        requires
            before.wf(),
            0 <= i < before.keys().len(),
            after.names@ == before.names@.remove(i),
            after.items@ == before.items@.remove(i),
        ensures
            after.wf(),
            after.keys() == before.keys().remove(i),
            after@ == before@.remove(before.keys()[i]),
    {
        let key = before.keys()[i];
        assert(after.keys() =~= before.keys().remove(i));
        assert(after.keys().no_duplicates());
        assert forall|k: Seq<char>| before.keys().contains(k) && k != key implies after.keys().contains(
            k,
        ) by {
            let b = before.keys().index_of(k);
            let a = if b < i { b } else { b - 1 };
            assert(after.keys()[a] == k);
        }
        assert forall|k: Seq<char>| #[trigger] after@.contains_key(k) implies before@.contains_key(k)
            && k != key && after@[k] == before@[k] by {
            let a = after.keys().index_of(k);
            let b = if a < i { a } else { a + 1 };
            assert(before.keys()[b] == k);
            lemma_index_of_unique(before.keys(), b);
        }
    }
}

/// The service's store: the table of questions and the table of answers.
/// The two are independent of each other: no operation touches both, and a
/// program that serves concurrent requests guards each with a lock of its own.
pub struct Store {
    pub questions: Table<Question>,
    pub answers: Table<Answer>,
}

impl Store {
    /// Whether both tables are well formed.
    pub open spec fn wf(&self) -> bool {
        self.questions.wf() && self.answers.wf()
    }

    /// A store with two empty tables.
    pub fn new() -> (store: Self)
        ensures
            store.wf(),
            store.questions@ == Map::<Seq<char>, Question>::empty(),
            store.answers@ == Map::<Seq<char>, Answer>::empty(),
    {
        Store { questions: Table::new(), answers: Table::new() }
    }
}

/// The outcome of looking up `id` in a table of questions.
pub open spec fn lookup(table: Map<Seq<char>, Question>, id: Seq<char>) -> Result<
    Question,
    ErrorView,
> {
    if table.contains_key(id) {
        Ok(table[id])
    } else {
        Err(ErrorView::QuestionNotFound)
    }
}

/// The table after `question` was inserted under its own id.
pub open spec fn inserted(table: Map<Seq<char>, Question>, question: Question) -> Map<
    Seq<char>,
    Question,
> {
    table.insert(question.id@, question)
}

/// The outcome of an operation that needs a question under `id`.
pub open spec fn presence(table: Map<Seq<char>, Question>, id: Seq<char>) -> Result<(), ErrorView> {
    if table.contains_key(id) {
        Ok(())
    } else {
        Err(ErrorView::QuestionNotFound)
    }
}

/// Whether `res` is the outcome `expected`, errors compared by their content.
pub open spec fn is_done(res: Result<(), Error>, expected: Result<(), ErrorView>) -> bool {
    match expected {
        Ok(_) => res is Ok,
        Err(e) => res is Err && res->Err_0@ == e,
    }
}

impl Table<Question> {
    /// A copy of every question, in listing order.
    pub fn list_questions(&self) -> (res: Vec<Question>)
        requires
            self.wf(),
        ensures
            question_views(res@) == question_views(self.values()),
    {
        let mut res: Vec<Question> = Vec::new();
        let n = self.len();
        let mut i: usize = 0;
        while i < n
            invariant
                self.wf(),
                n == self.values().len(),
                i <= n,
                res@.len() == i,
                forall|j: int| 0 <= j < i ==> (#[trigger] res@[j])@ == self.values()[j]@,
            decreases n - i,
        {
            res.push(self.value_at(i).clone());
            i = i + 1;
        }
        res
    }

    /// A copy of the question stored under `id`.
    pub fn get_question(&self, id: &QuestionId) -> (res: Result<Question, Error>)
        requires
            self.wf(),
        ensures
            match lookup(self@, id@) {
                Ok(stored) => res is Ok && res->Ok_0@ == stored@,
                Err(e) => res is Err && res->Err_0@ == e,
            },
    {
        match self.get(id.0.as_str()) {
            Some(question) => Ok(question.clone()),
            None => Err(Error::QuestionNotFound),
        }
    }

    /// Stores `question` under its own id, in place of any question stored
    /// there before.
    pub fn insert_question(&mut self, question: Question)
        requires
            old(self).wf(),
        ensures
            final(self).wf(),
            final(self)@ == inserted(old(self)@, question),
            old(self)@.contains_key(question.id@) ==> final(self).keys() == old(self).keys(),
            !old(self)@.contains_key(question.id@) ==> final(self).keys() == old(self).keys().push(
                question.id@,
            ),
    {
        let key = question.id.0.clone();
        self.insert(key, question);
    }

    /// Replaces the question stored under `id` by `question` as a whole.
    /// The record stays under `id`, also where `question` carries another
    /// id. Fails, and changes nothing, where nothing is stored under `id`.
    pub fn update_question(&mut self, id: &QuestionId, question: Question) -> (res: Result<
        (),
        Error,
    >)
        requires
            old(self).wf(),
        ensures
            final(self).wf(),
            is_done(res, presence(old(self)@, id@)),
            final(self).keys() == old(self).keys(),
            res is Ok ==> final(self)@ == old(self)@.insert(id@, question),
            res is Err ==> *final(self) == *old(self),
    {
        if self.update(id.0.as_str(), question) {
            Ok(())
        } else {
            Err(Error::QuestionNotFound)
        }
    }

    /// Removes the question stored under `id`. Fails, and changes nothing,
    /// where nothing is stored under `id`.
    pub fn delete_question(&mut self, id: &QuestionId) -> (res: Result<(), Error>)
        requires
            old(self).wf(),
        ensures
            final(self).wf(),
            is_done(res, presence(old(self)@, id@)),
            final(self)@ == old(self)@.remove(id@),
            res is Ok ==> final(self).keys() == old(self).keys().remove(
                old(self).keys().index_of(id@),
            ),
            res is Err ==> *final(self) == *old(self),
    {
        match self.remove(id.0.as_str()) {
            Some(_) => Ok(()),
            None => Err(Error::QuestionNotFound),
        }
    }
}

impl Table<Answer> {
    /// Stores `answer` under its own id, in place of any answer stored there
    /// before. Whether its question exists is not looked at.
    pub fn insert_answer(&mut self, answer: Answer)
        requires
            old(self).wf(),
        ensures
            final(self).wf(),
            final(self)@ == old(self)@.insert(answer.id@, answer),
            old(self)@.contains_key(answer.id@) ==> final(self).keys() == old(self).keys(),
            !old(self)@.contains_key(answer.id@) ==> final(self).keys() == old(self).keys().push(
                answer.id@,
            ),
    {
        let key = answer.id.0.clone();
        self.insert(key, answer);
    }
}

} // verus!
