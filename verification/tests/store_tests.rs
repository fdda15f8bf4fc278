use qa_core::answers_dao::AnswersDao;
use qa_core::errors::DBError;
use qa_core::models::{Answer, Question};
use qa_core::questions_dao::QuestionsDao;
use qa_core::store::InMemoryStore;

fn sample_question() -> Question {
    Question { title: "Q1".to_string(), description: "D1".to_string() }
}

#[test]
fn create_question_echoes_input_and_assigns_uuid() {
    let mut s = InMemoryStore::new();
    let d = s.create_question(sample_question()).unwrap();
    assert_eq!(d.title, "Q1");
    assert_eq!(d.description, "D1");
    assert!(uuid::Uuid::parse_str(&d.question_uuid).is_ok());
}

#[test]
fn created_question_uuids_are_distinct() {
    let mut s = InMemoryStore::new();
    let d1 = s.create_question(sample_question()).unwrap();
    let d2 = s
        .create_question(Question { title: "Q2".to_string(), description: "D2".to_string() })
        .unwrap();
    assert_ne!(d1.question_uuid, d2.question_uuid);
    let all = s.get_questions().unwrap();
    assert_eq!(all.len(), 2);
    assert_eq!(all[0].question_uuid, d1.question_uuid);
    assert_eq!(all[1].question_uuid, d2.question_uuid);
}

#[test]
fn create_answer_for_existing_question_succeeds() {
    let mut s = InMemoryStore::new();
    let q = s.create_question(sample_question()).unwrap();
    let a = s
        .create_answer(Answer { question_uuid: q.question_uuid.clone(), content: "A1".to_string() })
        .unwrap();
    assert_eq!(a.question_uuid, q.question_uuid);
    assert_eq!(a.content, "A1");
    assert!(uuid::Uuid::parse_str(&a.answer_uuid).is_ok());
}

#[test]
fn created_answer_appears_in_listing() {
    let mut s = InMemoryStore::new();
    let q = s.create_question(sample_question()).unwrap();
    let a = s
        .create_answer(Answer { question_uuid: q.question_uuid.clone(), content: "A1".to_string() })
        .unwrap();
    let listed = s.get_answers(q.question_uuid.clone()).unwrap();
    assert_eq!(listed.len(), 1);
    assert_eq!(listed[0].answer_uuid, a.answer_uuid);
    assert_eq!(listed[0].question_uuid, a.question_uuid);
    assert_eq!(listed[0].content, a.content);
    assert_eq!(listed[0].created_at, a.created_at);
}

#[test]
fn answer_to_unknown_question_is_invalid_reference() {
    let mut s = InMemoryStore::new();
    s.create_question(sample_question()).unwrap();
    let unrelated = uuid::Uuid::new_v4().to_string();
    let r = s.create_answer(Answer { question_uuid: unrelated, content: "A1".to_string() });
    match r {
        Err(DBError::InvalidUUID(_)) => {}
        Err(DBError::Other(_)) => panic!("a dangling reference must not read as a storage fault"),
        Ok(_) => panic!("a dangling reference must be rejected"),
    }
}

#[test]
fn malformed_identifiers_rejected_without_touching_store() {
    let mut s = InMemoryStore::new();
    let q = s.create_question(sample_question()).unwrap();
    s.create_answer(Answer { question_uuid: q.question_uuid.clone(), content: "A1".to_string() })
        .unwrap();

    let r = s.delete_question("not-a-uuid".to_string());
    assert!(matches!(r, Err(DBError::InvalidUUID(_))));
    let r = s.delete_answer("not-a-uuid".to_string());
    assert!(matches!(r, Err(DBError::InvalidUUID(_))));
    let r = s.get_answers("not-a-uuid".to_string());
    assert!(matches!(r, Err(DBError::InvalidUUID(_))));
    let r = s.create_answer(Answer {
        question_uuid: "not-a-uuid".to_string(),
        content: "A2".to_string(),
    });
    assert!(matches!(r, Err(DBError::InvalidUUID(_))));

    assert_eq!(s.get_questions().unwrap().len(), 1);
    assert_eq!(s.get_answers(q.question_uuid).unwrap().len(), 1);
}

#[test]
fn deleting_missing_identifiers_succeeds() {
    let mut s = InMemoryStore::new();
    let missing_q = uuid::Uuid::new_v4().to_string();
    let missing_a = uuid::Uuid::new_v4().to_string();
    assert!(s.delete_question(missing_q).is_ok());
    assert!(s.delete_answer(missing_a).is_ok());
}

#[test]
fn question_without_answers_lists_empty() {
    let mut s = InMemoryStore::new();
    let q = s.create_question(sample_question()).unwrap();
    let listed = s.get_answers(q.question_uuid).unwrap();
    assert!(listed.is_empty());
}

#[test]
fn deleted_question_no_longer_listed() {
    let mut s = InMemoryStore::new();
    let q = s.create_question(sample_question()).unwrap();
    s.delete_question(q.question_uuid).unwrap();
    assert!(s.get_questions().unwrap().is_empty());
}

#[test]
fn deleted_answer_no_longer_listed() {
    let mut s = InMemoryStore::new();
    let q = s.create_question(sample_question()).unwrap();
    let a = s
        .create_answer(Answer { question_uuid: q.question_uuid.clone(), content: "A1".to_string() })
        .unwrap();
    s.delete_answer(a.answer_uuid).unwrap();
    assert!(s.get_answers(q.question_uuid).unwrap().is_empty());
}
