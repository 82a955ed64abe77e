use rag_agent::answer::{AnswerEvent, AnswerPhase, AnswerSession};
use rag_agent::calls::{
    AgentError, PayloadField, RetrievedPoint, Role, ServiceCall, Step, COLLECTION, CONTENT_KEY,
    EMBED_DIMENSIONS, EMBED_MODEL, PROMPT_MODEL, SYSTEM_MESSAGE,
};
use rag_agent::files::File;
use rag_agent::ingest::{IngestEvent, IngestPhase, IngestSession};

struct StoredPoint {
    id: String,
    vector: Vec<f32>,
    fields: Vec<PayloadField>,
    rows: Vec<String>,
}

#[derive(Default)]
struct Stubs {
    points: Vec<StoredPoint>,
    embed_calls: usize,
    upserts: usize,
    searches: usize,
    completions: usize,
    // when set, the index finds nothing
    empty_index: bool,
    // when set, every search returns this point
    fixed_match: Option<Vec<PayloadField>>,
    // the model answers with these choices instead of echoing
    fixed_choices: Option<Vec<Option<String>>>,
    last_user_message: String,
}

fn field(key: &str, text: &str) -> PayloadField {
    PayloadField { key: key.to_string(), text: text.to_string() }
}

fn embed(text: &str) -> Vec<f32> {
    text.chars().map(|c| c as u32 as f32).collect()
}

fn ingest(stubs: &mut Stubs, doc: File) -> Result<(), AgentError> {
    let (mut session, mut step) = IngestSession::start(doc);
    let mut vectors: Vec<Vec<f32>> = Vec::new();
    loop {
        let call = match step {
            Step::Finish(r) => return r,
            Step::Call(call) => call,
        };
        let event = match call {
            ServiceCall::Embed { inputs, .. } => {
                stubs.embed_calls += 1;
                vectors = inputs.iter().map(|t| embed(t)).collect();
                IngestEvent::Embedded(vectors.len())
            },
            ServiceCall::Upsert { id, vector, payload, .. } => {
                stubs.upserts += 1;
                stubs.points.push(StoredPoint {
                    id,
                    vector: vectors[vector].clone(),
                    fields: vec![field("id", &payload.id), field(CONTENT_KEY, &payload.content)],
                    rows: payload.rows,
                });
                IngestEvent::Stored
            },
            _ => panic!("ingestion made a call it should not make"),
        };
        step = session.step(event);
    }
}

fn answer(stubs: &mut Stubs, query: &str) -> Result<String, AgentError> {
    let (mut session, mut step) = AnswerSession::start(query.to_string());
    let mut vectors: Vec<Vec<f32>> = Vec::new();
    loop {
        let call = match step {
            Step::Finish(r) => return r,
            Step::Call(call) => call,
        };
        let event = match call {
            ServiceCall::Embed { inputs, .. } => {
                stubs.embed_calls += 1;
                vectors = inputs.iter().map(|t| embed(t)).collect();
                AnswerEvent::Embedded(vectors.len())
            },
            ServiceCall::Search { vector, limit, .. } => {
                stubs.searches += 1;
                let found: Vec<RetrievedPoint> = if stubs.empty_index {
                    Vec::new()
                } else if let Some(fields) = &stubs.fixed_match {
                    vec![RetrievedPoint { fields: fields.clone() }]
                } else {
                    stubs
                        .points
                        .iter()
                        .filter(|p| p.vector == vectors[vector])
                        .take(limit as usize)
                        .map(|p| RetrievedPoint { fields: p.fields.clone() })
                        .collect()
                };
                AnswerEvent::Searched(found)
            },
            ServiceCall::Complete { messages, .. } => {
                stubs.completions += 1;
                let user = messages.iter().find(|m| m.role == Role::User).unwrap();
                stubs.last_user_message = user.content.clone();
                match &stubs.fixed_choices {
                    Some(choices) => AnswerEvent::Completed(choices.clone()),
                    None => AnswerEvent::Completed(vec![Some(user.content.clone())]),
                }
            },
            ServiceCall::Upsert { .. } => panic!("answering stored a point"),
        };
        step = session.step(event);
    }
}

fn doc(text: &str) -> File {
    File::new("sales.csv".to_string(), text.to_string())
}

#[test]
fn empty_document_fails_without_calls() {
    let mut stubs = Stubs::default();
    assert_eq!(ingest(&mut stubs, doc("")), Err(AgentError::EmptyInput));
    assert_eq!(stubs.embed_calls, 0);
    assert_eq!(stubs.upserts, 0);
}

#[test]
fn empty_document_first_step_is_finish() {
    let (session, step) = IngestSession::start(doc(""));
    assert!(matches!(step, Step::Finish(Err(AgentError::EmptyInput))));
    assert_eq!(session.phase, IngestPhase::Done);
}

#[test]
fn ingest_embeds_all_lines_in_one_request() {
    let (_, step) = IngestSession::start(doc("a\nb\nc\n"));
    match step {
        Step::Call(ServiceCall::Embed { model, inputs, dimensions }) => {
            assert_eq!(model, EMBED_MODEL);
            assert_eq!(inputs, vec!["a", "b", "c"]);
            assert_eq!(dimensions, Some(EMBED_DIMENSIONS));
            assert_eq!(EMBED_DIMENSIONS, 1536);
        },
        _ => panic!("expected an embedding request"),
    }
}

#[test]
fn ingest_stores_one_point_per_chunk() {
    let (mut session, step) = IngestSession::start(doc("r1\nr2\nr3"));
    assert!(matches!(step, Step::Call(ServiceCall::Embed { .. })));
    // three order-aligned unit vectors
    let mut step = session.step(IngestEvent::Embedded(3));
    let mut ids: Vec<String> = Vec::new();
    let mut upserts = 0usize;
    loop {
        match step {
            Step::Call(ServiceCall::Upsert { collection, id, vector, payload }) => {
                assert_eq!(collection, COLLECTION);
                assert_eq!(vector, upserts);
                assert_eq!(payload.id, "sales.csv");
                assert_eq!(payload.content, "r1\nr2\nr3");
                assert_eq!(payload.rows, vec!["r1", "r2", "r3"]);
                assert_eq!(id.len(), 36);
                assert!(!ids.contains(&id));
                ids.push(id);
                upserts += 1;
                step = session.step(IngestEvent::Stored);
            },
            Step::Finish(r) => {
                assert_eq!(r, Ok(()));
                break;
            },
            _ => panic!("unexpected call"),
        }
    }
    assert_eq!(upserts, 3);
}

#[test]
fn reingesting_adds_new_points() {
    let mut stubs = Stubs::default();
    assert_eq!(ingest(&mut stubs, doc("x\ny")), Ok(()));
    assert_eq!(ingest(&mut stubs, doc("x\ny")), Ok(()));
    assert_eq!(stubs.points.len(), 4);
    assert_ne!(stubs.points[0].id, stubs.points[2].id);
    assert_eq!(stubs.points[3].rows, vec!["x", "y"]);
}

#[test]
fn wrong_number_of_vectors_is_a_service_error() {
    let (mut session, _) = IngestSession::start(doc("a\nb"));
    let step = session.step(IngestEvent::Embedded(1));
    assert!(matches!(step, Step::Finish(Err(AgentError::ServiceError))));
    assert_eq!(session.phase, IngestPhase::Done);
}

#[test]
fn failed_upsert_halts_ingestion() {
    let (mut session, _) = IngestSession::start(doc("a\nb\nc"));
    let first = session.step(IngestEvent::Embedded(3));
    assert!(matches!(first, Step::Call(ServiceCall::Upsert { vector: 0, .. })));
    let second = session.step(IngestEvent::Stored);
    assert!(matches!(second, Step::Call(ServiceCall::Upsert { vector: 1, .. })));
    let third = session.step(IngestEvent::Failed);
    assert!(matches!(third, Step::Finish(Err(AgentError::ServiceError))));
}

#[test]
fn event_out_of_turn_is_a_service_error() {
    let (mut session, _) = IngestSession::start(doc("a"));
    assert!(matches!(session.step(IngestEvent::Stored), Step::Finish(Err(AgentError::ServiceError))));
    let (mut asession, _) = AnswerSession::start("q".to_string());
    let step = asession.step(AnswerEvent::Completed(vec![Some("x".to_string())]));
    assert!(matches!(step, Step::Finish(Err(AgentError::ServiceError))));
}

#[test]
fn no_match_fails_without_generation() {
    let mut stubs = Stubs { empty_index: true, ..Stubs::default() };
    assert_eq!(answer(&mut stubs, "how many widgets?"), Err(AgentError::NoResults));
    assert_eq!(stubs.searches, 1);
    assert_eq!(stubs.completions, 0);
}

#[test]
fn answer_contains_query_and_context() {
    let mut stubs = Stubs {
        fixed_match: Some(vec![field(CONTENT_KEY, "42 widgets sold")]),
        ..Stubs::default()
    };
    let query = "How many widgets were sold?";
    let out = answer(&mut stubs, query).unwrap();
    assert!(out.contains(query));
    assert!(out.contains("42 widgets sold"));
    assert_eq!(out, "How many widgets were sold?\nProvided context:\n42 widgets sold");
}

#[test]
fn answer_request_shapes() {
    let (mut session, step) = AnswerSession::start("q?".to_string());
    match step {
        Step::Call(ServiceCall::Embed { model, inputs, dimensions }) => {
            assert_eq!(model, EMBED_MODEL);
            assert_eq!(inputs, vec!["q?"]);
            assert_eq!(dimensions, None);
        },
        _ => panic!("expected an embedding request"),
    }
    match session.step(AnswerEvent::Embedded(1)) {
        Step::Call(ServiceCall::Search { collection, vector, limit, with_payload }) => {
            assert_eq!(collection, COLLECTION);
            assert_eq!(vector, 0);
            assert_eq!(limit, 1);
            assert!(with_payload);
        },
        _ => panic!("expected a search"),
    }
    let found = vec![RetrievedPoint { fields: vec![field("id", "f"), field(CONTENT_KEY, "ctx")] }];
    match session.step(AnswerEvent::Searched(found)) {
        Step::Call(ServiceCall::Complete { model, messages }) => {
            assert_eq!(model, PROMPT_MODEL);
            assert_eq!(messages.len(), 2);
            assert_eq!(messages[0].role, Role::System);
            assert_eq!(messages[0].content, SYSTEM_MESSAGE);
            assert!(SYSTEM_MESSAGE.contains("I don't know"));
            assert_eq!(messages[1].role, Role::User);
            assert_eq!(messages[1].content, "q?\nProvided context:\nctx");
        },
        _ => panic!("expected a completion request"),
    }
    assert_eq!(session.phase, AnswerPhase::AwaitingCompletion);
}

#[test]
fn round_trip_returns_ingested_chunk_as_context() {
    let mut stubs = Stubs::default();
    assert_eq!(ingest(&mut stubs, doc("apples,3\n42 widgets sold\npears,7\n")), Ok(()));
    let out = answer(&mut stubs, "42 widgets sold").unwrap();
    assert!(out.starts_with("42 widgets sold\nProvided context:\n"));
    assert!(stubs.last_user_message.ends_with("apples,3\n42 widgets sold\npears,7\n"));
    assert_eq!(stubs.completions, 1);
}

#[test]
fn answering_never_upserts() {
    let mut stubs = Stubs::default();
    assert_eq!(ingest(&mut stubs, doc("a\nb")), Ok(()));
    let before = stubs.upserts;
    for q in ["a", "b", "c", "a"] {
        let _ = answer(&mut stubs, q);
    }
    assert_eq!(stubs.upserts, before);
    assert_eq!(stubs.points.len(), 2);
}

#[test]
fn missing_content_field_is_malformed() {
    let mut stubs = Stubs { fixed_match: Some(vec![field("id", "x")]), ..Stubs::default() };
    assert_eq!(answer(&mut stubs, "q"), Err(AgentError::MalformedPayload));
    assert_eq!(stubs.completions, 0);
}

#[test]
fn first_content_field_wins() {
    let mut stubs = Stubs {
        fixed_match: Some(vec![field(CONTENT_KEY, "one"), field(CONTENT_KEY, "two")]),
        ..Stubs::default()
    };
    assert_eq!(answer(&mut stubs, "q").unwrap(), "q\nProvided context:\none");
}

#[test]
fn no_choices_is_an_error() {
    let mut stubs = Stubs {
        fixed_match: Some(vec![field(CONTENT_KEY, "c")]),
        fixed_choices: Some(Vec::new()),
        ..Stubs::default()
    };
    assert_eq!(answer(&mut stubs, "q"), Err(AgentError::NoChoices));
    stubs.fixed_choices = Some(vec![None]);
    assert_eq!(answer(&mut stubs, "q"), Err(AgentError::NoChoices));
}

#[test]
fn first_choice_is_the_answer() {
    let mut stubs = Stubs {
        fixed_match: Some(vec![field(CONTENT_KEY, "c")]),
        fixed_choices: Some(vec![Some("first".to_string()), Some("second".to_string())]),
        ..Stubs::default()
    };
    assert_eq!(answer(&mut stubs, "q"), Ok("first".to_string()));
}

#[test]
fn query_without_vector_is_a_service_error() {
    let (mut session, _) = AnswerSession::start("q".to_string());
    assert!(matches!(session.step(AnswerEvent::Embedded(0)), Step::Finish(Err(AgentError::ServiceError))));
    let (mut session, _) = AnswerSession::start("q".to_string());
    assert!(matches!(session.step(AnswerEvent::Failed), Step::Finish(Err(AgentError::ServiceError))));
}
