use qa_core::errors::HandlerError;
use qa_core::handlers::{
    create_answer, create_question, delete_answer, delete_question, read_answers, read_questions,
};
use qa_core::models::{Answer, Question};
use qa_core::store::InMemoryStore;

#[test]
fn request_scenario_end_to_end() {
    let mut s = InMemoryStore::new();

    let q = create_question(
        Question { title: "Q1".to_string(), description: "D1".to_string() },
        &mut s,
    )
    .unwrap();
    assert!(uuid::Uuid::parse_str(&q.question_uuid).is_ok());
    assert_eq!(q.title, "Q1");
    assert_eq!(q.description, "D1");

    let a = create_answer(
        Answer { question_uuid: q.question_uuid.clone(), content: "A1".to_string() },
        &mut s,
    )
    .unwrap();
    assert_eq!(a.question_uuid, q.question_uuid);
    assert_eq!(a.content, "A1");

    let unrelated = uuid::Uuid::new_v4().to_string();
    let listed = read_answers(unrelated, &s).unwrap();
    assert!(listed.is_empty());

    let r = delete_question("not-a-uuid".to_string(), &mut s);
    assert!(matches!(r, Err(HandlerError::BadRequest(_))));
}

#[test]
fn handlers_translate_caller_errors_to_bad_request() {
    let mut s = InMemoryStore::new();
    assert!(matches!(
        delete_question("zzz".to_string(), &mut s),
        Err(HandlerError::BadRequest(_))
    ));
    assert!(matches!(delete_answer("zzz".to_string(), &mut s), Err(HandlerError::BadRequest(_))));
    assert!(matches!(read_answers("zzz".to_string(), &s), Err(HandlerError::BadRequest(_))));
    assert!(matches!(
        create_answer(
            Answer { question_uuid: "zzz".to_string(), content: "A".to_string() },
            &mut s
        ),
        Err(HandlerError::BadRequest(_))
    ));
}

#[test]
fn dangling_reference_reads_as_bad_request() {
    let mut s = InMemoryStore::new();
    let unrelated = uuid::Uuid::new_v4().to_string();
    let r = create_answer(Answer { question_uuid: unrelated, content: "A".to_string() }, &mut s);
    match r {
        Err(HandlerError::BadRequest(_)) => {}
        Err(HandlerError::InternalError(_)) => {
            panic!("a dangling reference must not read as a server fault")
        }
        Ok(_) => panic!("a dangling reference must be rejected"),
    }
}

#[test]
fn read_questions_reflects_creates_and_deletes() {
    let mut s = InMemoryStore::new();
    assert!(read_questions(&s).unwrap().is_empty());
    let q = create_question(
        Question { title: "Q1".to_string(), description: "D1".to_string() },
        &mut s,
    )
    .unwrap();
    assert_eq!(read_questions(&s).unwrap().len(), 1);
    delete_question(q.question_uuid, &mut s).unwrap();
    assert!(read_questions(&s).unwrap().is_empty());
}
