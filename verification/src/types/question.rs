//! Questions and their identifiers.

use vstd::prelude::*;
use vstd::string::*;

verus! {

/// The texts of a list of strings.
pub open spec fn texts(strings: Seq<String>) -> Seq<Seq<char>> {
    strings.map_values(|s: String| s@)
}

/// Copies a list of strings.
pub fn clone_strings(strings: &Vec<String>) -> (res: Vec<String>)
    ensures
        texts(res@) == texts(strings@),
{
    let mut res: Vec<String> = Vec::new();
    let mut i: usize = 0;
    while i < strings.len()
        invariant
            i <= strings.len(),
            res@.len() == i,
            forall|j: int| 0 <= j < i ==> (#[trigger] res@[j])@ == strings@[j]@,
        decreases strings.len() - i,
    {
        res.push(strings[i].clone());
        i = i + 1;
    }
    res
}

/// Why a text is no identifier.
#[derive(Debug)]
pub enum IdError {
    /// The text is empty.
    NoIdProvided,
}

impl IdError {
    /// The error in words.
    pub fn to_string(&self) -> (text: String)
        ensures
            text@ == "No id provided"@,
    {
        String::from_str("No id provided")
    }
}

/// The key under which a question is stored. One made by
/// [`QuestionId::from_str`] is never empty.
#[derive(Debug, PartialEq, Eq, Hash)]
pub struct QuestionId(pub String);

impl View for QuestionId {
    type V = Seq<char>;

    open spec fn view(&self) -> Seq<char> {
        self.0@
    }
}

impl Clone for QuestionId {
    fn clone(&self) -> (res: Self)
        ensures
            res@ == self@,
    {
        QuestionId(self.0.clone())
    }
}

impl QuestionId {
    /// Makes an identifier of `id`, unless `id` is empty.
    pub fn from_str(id: &str) -> (res: Result<QuestionId, IdError>)
        ensures
            id@.len() == 0 ==> res is Err,
            id@.len() > 0 ==> res is Ok && res->Ok_0@ == id@,
    {
        if id.is_empty() {
            Err(IdError::NoIdProvided)
        } else {
            Ok(QuestionId(String::from_str(id)))
        }
    }

    /// The identifier's text.
    pub fn to_string(&self) -> (text: String)
        ensures
            text@ == self@,
    {
        self.0.clone()
    }
}

/// A question as the service stores it.
#[derive(Debug)]
pub struct Question {
    pub id: QuestionId,
    pub title: String,
    pub content: String,
    pub tags: Option<Vec<String>>,
}

/// The mathematical content of a [`Question`].
pub struct QuestionView {
    pub id: Seq<char>,
    pub title: Seq<char>,
    pub content: Seq<char>,
    pub tags: Option<Seq<Seq<char>>>,
}

impl View for Question {
    type V = QuestionView;

    open spec fn view(&self) -> QuestionView {
        QuestionView {
            id: self.id@,
            title: self.title@,
            content: self.content@,
            tags: tag_texts(self.tags),
        }
    }
}

impl Clone for Question {
    fn clone(&self) -> (res: Self)
        ensures
            res@ == self@,
    {
        let tags = match &self.tags {
            Some(tags) => Some(clone_strings(tags)),
            None => None,
        };
        Question {
            id: self.id.clone(),
            title: self.title.clone(),
            content: self.content.clone(),
            tags,
        }
    }
}

/// The tags of a question as their texts.
pub open spec fn tag_texts(tags: Option<Vec<String>>) -> Option<Seq<Seq<char>>> {
    match tags {
        Some(tags) => Some(texts(tags@)),
        None => None,
    }
}

/// The text that the standard library's `Debug` formatting gives for the
/// optional list of tags.
pub uninterp spec fn tags_debug_text(tags: Option<Seq<Seq<char>>>) -> Seq<char>;

/// Formats the tags with `format!("{:?}", ..)`, that is with the standard
/// library's `Debug` impls of `Option`, `Vec` and `String`. Trusted: the
/// text depends on the tags' texts alone. What the text is, is not stated.
#[verifier::external_body]
fn debug_tags(tags: &Option<Vec<String>>) -> (text: String)
    ensures
        text@ == tags_debug_text(tag_texts(*tags)),
{
    format!("{:?}", tags)
}

/// The one-line description of a question, given the text for its tags.
pub open spec fn description(q: QuestionView, tags_text: Seq<char>) -> Seq<char> {
    q.id + ", title: "@ + q.title + ", content: "@ + q.content + ", tags: "@ + tags_text
}

impl Question {
    /// The one-line description of the question, with `tags_text` standing
    /// for its tags.
    pub fn describe_with(&self, tags_text: &str) -> (text: String)
        ensures
            text@ == description(self@, tags_text@),
    {
        let mut text = self.id.to_string();
        text.append(", title: ");
        text.append(self.title.as_str());
        text.append(", content: ");
        text.append(self.content.as_str());
        text.append(", tags: ");
        text.append(tags_text);
        text
    }

    /// The one-line description of the question: its id, title and content,
    /// and its tags in `Debug` formatting.
    pub fn to_string(&self) -> (text: String)
        ensures
            text@ == description(self@, tags_debug_text(self@.tags)),
    {
        let tags_text = debug_tags(&self.tags);
        self.describe_with(tags_text.as_str())
    }

    /// A question made of its four parts.
    pub fn new(id: QuestionId, title: String, content: String, tags: Option<Vec<String>>) -> (res:
        Self)
        ensures
            res.id == id,
            res.title == title,
            res.content == content,
            res.tags == tags,
    {
        Question { id, title, content, tags }
    }
}

/// The contents of a list of questions.
pub open spec fn question_views(questions: Seq<Question>) -> Seq<QuestionView> {
    questions.map_values(|q: Question| q@)
}

} // verus!
