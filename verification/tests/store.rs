use qa_service::error::Error;
use qa_service::store::{Store, Table};
use qa_service::types::answer::{Answer, AnswerId};
use qa_service::types::question::{IdError, Question, QuestionId};

fn question(id: &str, title: &str) -> Question {
    Question::new(
        QuestionId(id.to_string()),
        title.to_string(),
        format!("content of {}", id),
        Some(vec!["faq".to_string(), id.to_string()]),
    )
}

fn same(a: &Question, b: &Question) -> bool {
    a.id.0 == b.id.0 && a.title == b.title && a.content == b.content && a.tags == b.tags
}

#[test]
fn question_id_from_non_empty_text() {
    let id = QuestionId::from_str("1").unwrap();
    assert_eq!(id.0, "1");
}

#[test]
fn question_id_refuses_empty_text() {
    assert!(matches!(QuestionId::from_str(""), Err(IdError::NoIdProvided)));
}

#[test]
fn question_new_keeps_its_parts() {
    let q = Question::new(
        QuestionId::from_str("1").unwrap(),
        String::from("First Question"),
        String::from("Content of Question"),
        Some(vec![String::from("faq")]),
    );
    assert_eq!(q.id.0, "1");
    assert_eq!(q.title, "First Question");
    assert_eq!(q.content, "Content of Question");
    assert_eq!(q.tags, Some(vec!["faq".to_string()]));
    let bare = Question::new(QuestionId("2".to_string()), String::new(), String::new(), None);
    assert_eq!(bare.tags, None);
}

#[test]
fn question_clone_is_equal() {
    let q = question("7", "seven");
    assert!(same(&q, &q.clone()));
    let bare = Question::new(QuestionId("2".to_string()), "t".to_string(), "c".to_string(), None);
    assert!(same(&bare, &bare.clone()));
}

#[test]
fn new_store_is_empty() {
    let store = Store::new();
    assert_eq!(store.questions.len(), 0);
    assert_eq!(store.answers.len(), 0);
    assert!(store.questions.list_questions().is_empty());
}

#[test]
fn insert_then_get_round_trip() {
    let mut table: Table<Question> = Table::new();
    let q = question("X", "round trip");
    table.insert_question(q.clone());
    let got = table.get_question(&QuestionId("X".to_string())).unwrap();
    assert!(same(&got, &q));
}

#[test]
fn delete_then_get_fails() {
    let mut table: Table<Question> = Table::new();
    table.insert_question(question("X", "short lived"));
    assert!(table.delete_question(&QuestionId("X".to_string())).is_ok());
    assert!(matches!(
        table.get_question(&QuestionId("X".to_string())),
        Err(Error::QuestionNotFound)
    ));
    assert_eq!(table.len(), 0);
}

#[test]
fn get_of_unknown_id_fails() {
    let mut table: Table<Question> = Table::new();
    table.insert_question(question("1", "one"));
    assert!(matches!(
        table.get_question(&QuestionId("2".to_string())),
        Err(Error::QuestionNotFound)
    ));
}

#[test]
fn insert_overwrites_silently() {
    let mut table: Table<Question> = Table::new();
    table.insert_question(question("1", "first"));
    table.insert_question(question("2", "other"));
    table.insert_question(question("1", "second"));
    assert_eq!(table.len(), 2);
    let got = table.get_question(&QuestionId("1".to_string())).unwrap();
    assert_eq!(got.title, "second");
    let listed = table.list_questions();
    assert_eq!(listed[0].title, "second");
    assert_eq!(listed[1].title, "other");
}

#[test]
fn update_replaces_the_whole_record() {
    let mut table: Table<Question> = Table::new();
    table.insert_question(question("1", "before"));
    let replacement =
        Question::new(QuestionId("1".to_string()), "after".to_string(), "new".to_string(), None);
    assert!(table.update_question(&QuestionId("1".to_string()), replacement).is_ok());
    let got = table.get_question(&QuestionId("1".to_string())).unwrap();
    assert_eq!(got.title, "after");
    assert_eq!(got.content, "new");
    assert_eq!(got.tags, None);
}

#[test]
fn update_does_not_rename_the_key() {
    let mut table: Table<Question> = Table::new();
    table.insert_question(question("1", "one"));
    assert!(table.update_question(&QuestionId("1".to_string()), question("2", "two")).is_ok());
    let got = table.get_question(&QuestionId("1".to_string())).unwrap();
    assert_eq!(got.id.0, "2");
    assert_eq!(got.title, "two");
    assert!(matches!(
        table.get_question(&QuestionId("2".to_string())),
        Err(Error::QuestionNotFound)
    ));
    assert_eq!(table.len(), 1);
    assert_eq!(table.key_at(0), "1");
}

#[test]
fn update_of_unknown_id_changes_nothing() {
    let mut table: Table<Question> = Table::new();
    table.insert_question(question("1", "one"));
    let r = table.update_question(&QuestionId("9".to_string()), question("9", "nine"));
    assert!(matches!(r, Err(Error::QuestionNotFound)));
    assert_eq!(table.len(), 1);
    assert!(same(&table.get_question(&QuestionId("1".to_string())).unwrap(), &question("1", "one")));
    assert!(!table.contains_key("9"));
}

#[test]
fn delete_of_absent_id_fails_twice_and_changes_nothing() {
    let mut table: Table<Question> = Table::new();
    table.insert_question(question("1", "one"));
    table.insert_question(question("2", "two"));
    for _ in 0..2 {
        let r = table.delete_question(&QuestionId("3".to_string()));
        assert!(matches!(r, Err(Error::QuestionNotFound)));
        let listed = table.list_questions();
        assert_eq!(listed.len(), 2);
        assert!(same(&listed[0], &question("1", "one")));
        assert!(same(&listed[1], &question("2", "two")));
    }
}

#[test]
fn delete_twice_fails_the_second_time() {
    let mut table: Table<Question> = Table::new();
    table.insert_question(question("1", "one"));
    assert!(table.delete_question(&QuestionId("1".to_string())).is_ok());
    assert!(matches!(
        table.delete_question(&QuestionId("1".to_string())),
        Err(Error::QuestionNotFound)
    ));
}

#[test]
fn delete_keeps_the_order_of_the_rest() {
    let mut table: Table<Question> = Table::new();
    for id in ["a", "b", "c", "d"] {
        table.insert_question(question(id, id));
    }
    assert!(table.delete_question(&QuestionId("b".to_string())).is_ok());
    let ids: Vec<String> = table.list_questions().into_iter().map(|q| q.id.0).collect();
    assert_eq!(ids, vec!["a", "c", "d"]);
}

#[test]
fn many_inserts_with_distinct_ids_lose_nothing() {
    let mut table: Table<Question> = Table::new();
    for i in 0..200 {
        table.insert_question(question(&format!("q{}", i), &format!("title {}", i)));
    }
    assert_eq!(table.len(), 200);
    for i in (0..200).rev() {
        let got = table.get_question(&QuestionId(format!("q{}", i))).unwrap();
        assert!(same(&got, &question(&format!("q{}", i), &format!("title {}", i))));
    }
}

#[test]
fn table_get_remove_and_positions() {
    let mut table: Table<u32> = Table::new();
    table.insert("one".to_string(), 1);
    table.insert("two".to_string(), 2);
    assert_eq!(table.get("one"), Some(&1));
    assert_eq!(table.get("three"), None);
    assert!(table.contains_key("two"));
    assert_eq!(table.key_at(1), "two");
    assert_eq!(*table.value_at(1), 2);
    assert!(table.update("two", 22));
    assert!(!table.update("three", 3));
    assert_eq!(table.remove("one"), Some(1));
    assert_eq!(table.remove("one"), None);
    assert_eq!(table.len(), 1);
    assert_eq!(table.get("two"), Some(&22));
}

#[test]
fn insert_answer_upserts() {
    let mut store = Store::new();
    let answer = Answer {
        id: AnswerId("a1".to_string()),
        content: "first".to_string(),
        question_id: QuestionId("no such question".to_string()),
    };
    store.answers.insert_answer(answer.clone());
    store.answers.insert_answer(Answer { content: "second".to_string(), ..answer });
    assert_eq!(store.answers.len(), 1);
    let stored = store.answers.get("a1").unwrap();
    assert_eq!(stored.content, "second");
    assert_eq!(stored.question_id.0, "no such question");
    assert_eq!(store.questions.len(), 0);
}

#[test]
fn id_error_in_words() {
    assert_eq!(IdError::NoIdProvided.to_string(), "No id provided");
}

#[test]
fn question_id_as_text() {
    assert_eq!(QuestionId("QI0001".to_string()).to_string(), "QI0001");
}

#[test]
fn question_description() {
    let q = Question::new(
        QuestionId("1".to_string()),
        "First Question".to_string(),
        "Content of Question".to_string(),
        Some(vec!["faq".to_string()]),
    );
    assert_eq!(
        q.to_string(),
        "1, title: First Question, content: Content of Question, tags: Some([\"faq\"])"
    );
    let bare = Question::new(QuestionId("2".to_string()), "t".to_string(), "c".to_string(), None);
    assert_eq!(bare.to_string(), "2, title: t, content: c, tags: None");
    assert_eq!(bare.describe_with("[]"), "2, title: t, content: c, tags: []");
}

#[test]
fn ids_compare_by_their_text() {
    assert_eq!(QuestionId("a".to_string()), QuestionId("a".to_string()));
    assert_ne!(QuestionId("a".to_string()), QuestionId("b".to_string()));
    assert_eq!(AnswerId("a".to_string()), AnswerId("a".to_string()));
    assert_eq!(QuestionId("a".to_string()).clone(), QuestionId("a".to_string()));
}
