use prompt_library::entities::{InvalidField, Message, MessagePart, Prompt, TextPart};
use prompt_library::filter::{build_filter, Clause, FilterField, FilterValue};
use prompt_library::identifier::ObjectId;
use prompt_library::number::Number;
use prompt_library::repository::{
    create_prompt, create_prompt_checked, create_prompt_result, decode_id, delete_prompt,
    delete_prompt_result, expose, read_prompt, read_prompt_result, read_prompts,
    read_prompts_result, read_prompts_step, CursorEvent, DeleteOutcome, FindOneOutcome,
    FindOutcome, InsertOutcome, ListStep, StoreFailure, StoreFailureKind, StoredPrompt,
};
use prompt_library::responses::{
    CreatePromptResponse, DeletePromptResponse, Error, ReadPromptResponse, ReadPromptsResponse,
};

const SAMPLE: &str = "507f1f77bcf86cd799439011";
const SAMPLE_BYTES: [u8; 12] = [
    0x50, 0x7f, 0x1f, 0x77, 0xbc, 0xf8, 0x6c, 0xd7, 0x99, 0x43, 0x90, 0x11,
];

fn sample_prompt() -> Prompt {
    let mut prompt = Prompt::new(
        "gpt".to_string(),
        vec![Message {
            role: "user".to_string(),
            name: None,
            content: vec![MessagePart::Text(TextPart { text: "hi".to_string() })],
            tool_calls: None,
        }],
    );
    prompt.temperature = Some(Number::from_bits(1.5f64.to_bits()));
    prompt
}

fn named(model: &str) -> Prompt {
    Prompt::new(model.to_string(), vec![])
}

fn failure(kind: StoreFailureKind, message: &str) -> StoreFailure {
    StoreFailure { kind, message: message.to_string() }
}

fn invalid_id_error() -> Error {
    Error {
        message: "id must be a 12-byte input or a 24-character hex string".to_string(),
        kind: "InvalidObjectId".to_string(),
        location: Some(vec!["id".to_string()]),
    }
}

fn internal_error(message: &str) -> Error {
    Error { message: message.to_string(), kind: "InternalServerError".to_string(), location: None }
}

fn not_found_error(id: &str) -> Error {
    Error {
        message: format!("Prompt not found with ID {}", id),
        kind: "PromptNotFound".to_string(),
        location: None,
    }
}

#[test]
fn error_payloads() {
    assert_eq!(Error::invalid_id(), invalid_id_error());
    assert_eq!(Error::internal("boom".to_string()), internal_error("boom"));
    assert_eq!(Error::not_found(&ObjectId::from_bytes(SAMPLE_BYTES)), not_found_error(SAMPLE));
    assert_eq!(
        Error::conflict(),
        Error {
            message: "Prompt already exists".to_string(),
            kind: "prompt".to_string(),
            location: Some(vec!["body".to_string(), "name".to_string()]),
        }
    );
}

#[test]
fn create_clears_a_supplied_identifier() {
    let mut prompt = sample_prompt();
    prompt.identifier = Some("chosen-by-the-client".to_string());
    let document = create_prompt(prompt);
    assert_eq!(document, sample_prompt());
    assert_eq!(document.identifier, None);
}

#[test]
fn create_then_conflict() {
    let prompt = sample_prompt();
    assert_eq!(prompt.validate(), Ok(()));
    let document = create_prompt(prompt.clone());
    let id = ObjectId::from_bytes(SAMPLE_BYTES);
    let first = create_prompt_result(document.clone(), InsertOutcome::Inserted(id));
    let mut expected = prompt.clone();
    expected.identifier = Some(SAMPLE.to_string());
    assert_eq!(first, CreatePromptResponse::Created(expected));

    let second = create_prompt_result(
        document,
        InsertOutcome::Failed(failure(StoreFailureKind::Write, "E11000 duplicate key error")),
    );
    assert_eq!(second, CreatePromptResponse::Conflict(Error::conflict()));
}

#[test]
fn create_with_other_failure_is_internal_error() {
    let response = create_prompt_result(
        create_prompt(sample_prompt()),
        InsertOutcome::Failed(failure(StoreFailureKind::Other, "connection reset")),
    );
    assert_eq!(response, CreatePromptResponse::InternalError(internal_error("connection reset")));
}

#[test]
fn created_identifier_decodes_to_the_assigned_id() {
    let id = ObjectId::from_bytes([9, 8, 7, 6, 5, 4, 3, 2, 1, 0, 0xaa, 0xbb]);
    let response = create_prompt_result(create_prompt(sample_prompt()), InsertOutcome::Inserted(id));
    match response {
        CreatePromptResponse::Created(created) => {
            let text = created.identifier.unwrap();
            assert_eq!(text, "09080706050403020100aabb");
            assert_eq!(read_prompt(&text), Ok(id));
        }
        other => panic!("unexpected response {:?}", other),
    }
}

#[test]
fn create_then_read_round_trip() {
    let input = sample_prompt();
    let id = ObjectId::from_bytes(SAMPLE_BYTES);
    let document = create_prompt(input.clone());
    let created = match create_prompt_result(document.clone(), InsertOutcome::Inserted(id)) {
        CreatePromptResponse::Created(created) => created,
        other => panic!("unexpected response {:?}", other),
    };
    let returned = created.identifier.clone().unwrap();
    let internal = read_prompt(&returned).unwrap();
    assert_eq!(internal, id);
    let stored = StoredPrompt { id, prompt: document };
    let fetched = match read_prompt_result(&internal, FindOneOutcome::Record(Some(stored))) {
        ReadPromptResponse::Found(found) => found,
        other => panic!("unexpected response {:?}", other),
    };
    assert_eq!(fetched, created);
    let mut without = fetched;
    without.identifier = None;
    assert_eq!(without, input);
}

#[test]
fn get_with_malformed_id() {
    let response = read_prompt("not-a-valid-id");
    assert_eq!(response, Err(ReadPromptResponse::InvalidId(invalid_id_error())));
}

#[test]
fn get_with_unknown_id() {
    let id = read_prompt(SAMPLE).unwrap();
    assert_eq!(id.bytes, SAMPLE_BYTES);
    let response = read_prompt_result(&id, FindOneOutcome::Record(None));
    assert_eq!(response, ReadPromptResponse::NotFound(not_found_error(SAMPLE)));
}

#[test]
fn get_with_store_failure() {
    let id = read_prompt(SAMPLE).unwrap();
    let response =
        read_prompt_result(&id, FindOneOutcome::Failed(failure(StoreFailureKind::Other, "down")));
    assert_eq!(response, ReadPromptResponse::InternalError(internal_error("down")));
    let response =
        read_prompt_result(&id, FindOneOutcome::Failed(failure(StoreFailureKind::Write, "odd")));
    assert_eq!(response, ReadPromptResponse::InternalError(internal_error("odd")));
}

#[test]
fn malformed_ids_are_invalid_for_get_and_delete() {
    for bad in ["", "not-a-valid-id", "abcdefghijk", "abcdefghijklm", "507f1f77bcf86cd79943901", "507f1f77bcf86cd7994390111", "z07f1f77bcf86cd799439011"] {
        assert_eq!(decode_id(bad), Err(invalid_id_error()), "{:?}", bad);
        assert_eq!(read_prompt(bad), Err(ReadPromptResponse::InvalidId(invalid_id_error())));
        assert_eq!(delete_prompt(bad), Err(DeletePromptResponse::InvalidId(invalid_id_error())));
    }
    assert_eq!(decode_id(SAMPLE), Ok(ObjectId::from_bytes(SAMPLE_BYTES)));
}

#[test]
fn delete_twice() {
    let id = delete_prompt(SAMPLE).unwrap();
    assert_eq!(id.bytes, SAMPLE_BYTES);
    assert_eq!(delete_prompt_result(&id, DeleteOutcome::Deleted(1)), DeletePromptResponse::Deleted);
    assert_eq!(
        delete_prompt_result(&id, DeleteOutcome::Deleted(0)),
        DeletePromptResponse::NotFound(not_found_error(SAMPLE))
    );
}

#[test]
fn delete_with_store_failure() {
    let id = delete_prompt(SAMPLE).unwrap();
    assert_eq!(
        delete_prompt_result(&id, DeleteOutcome::Failed(failure(StoreFailureKind::Other, "down"))),
        DeletePromptResponse::InternalError(internal_error("down"))
    );
    assert_eq!(delete_prompt_result(&id, DeleteOutcome::Deleted(u64::MAX)), DeletePromptResponse::Deleted);
}

#[test]
fn list_empty_collection_without_filters() {
    let filter = read_prompts(None, None, None);
    assert!(filter.clauses.is_empty());
    let response = read_prompts_result(FindOutcome::Records(vec![]));
    assert_eq!(response, ReadPromptsResponse::Listed(vec![]));
}

#[test]
fn list_keeps_order_and_rewrites_each_identifier() {
    let ids = [
        ObjectId::from_bytes([1; 12]),
        ObjectId::from_bytes([2; 12]),
        ObjectId::from_bytes(SAMPLE_BYTES),
    ];
    let records = vec![
        StoredPrompt { id: ids[0], prompt: named("a") },
        StoredPrompt { id: ids[1], prompt: named("b") },
        StoredPrompt { id: ids[2], prompt: sample_prompt() },
    ];
    let mut a = named("a");
    a.identifier = Some("010101010101010101010101".to_string());
    let mut b = named("b");
    b.identifier = Some("020202020202020202020202".to_string());
    let mut c = sample_prompt();
    c.identifier = Some(SAMPLE.to_string());
    assert_eq!(
        read_prompts_result(FindOutcome::Records(records)),
        ReadPromptsResponse::Listed(vec![a, b, c])
    );
}

#[test]
fn list_failure_gives_no_records() {
    let response =
        read_prompts_result(FindOutcome::Failed(failure(StoreFailureKind::Other, "cursor died")));
    assert_eq!(response, ReadPromptsResponse::InternalError(internal_error("cursor died")));
}

#[test]
fn expose_sets_only_the_identifier() {
    let mut stored = sample_prompt();
    stored.identifier = Some("stale".to_string());
    let exposed = expose(stored, &ObjectId::from_bytes(SAMPLE_BYTES));
    let mut expected = sample_prompt();
    expected.identifier = Some(SAMPLE.to_string());
    assert_eq!(exposed, expected);
}

#[test]
fn filter_has_a_clause_for_each_present_input() {
    let filter = read_prompts(Some("x".to_string()), Some("y".to_string()), None);
    assert_eq!(
        filter.clauses,
        vec![
            Clause { field: FilterField::Name, value: FilterValue::Text("x".to_string()) },
            Clause { field: FilterField::Model, value: FilterValue::Text("y".to_string()) },
        ]
    );
    let half = Number::from_bits(0.5f64.to_bits());
    let filter = build_filter(None, Some("y".to_string()), Some(half));
    assert_eq!(
        filter.clauses,
        vec![
            Clause { field: FilterField::Model, value: FilterValue::Text("y".to_string()) },
            Clause { field: FilterField::Temperature, value: FilterValue::Number(half) },
        ]
    );
    let filter = build_filter(Some("x".to_string()), Some("y".to_string()), Some(half));
    assert_eq!(filter.clauses.len(), 3);
    assert_eq!(filter.clauses[0].field, FilterField::Name);
    assert_eq!(filter.clauses[2].field, FilterField::Temperature);
    assert!(build_filter(None, None, None).clauses.is_empty());
}

#[test]
fn filter_field_names() {
    assert_eq!(FilterField::Name.name(), "name");
    assert_eq!(FilterField::Model.name(), "model");
    assert_eq!(FilterField::Temperature.name(), "temperature");
}

#[test]
fn twelve_byte_id_is_looked_up_by_its_bytes() {
    let id = ObjectId::from_bytes(*b"abcdefghijkl");
    assert_eq!(decode_id("abcdefghijkl"), Ok(id));
    assert_eq!(read_prompt("abcdefghijkl"), Ok(id));
    assert_eq!(delete_prompt("abcdefghijkl"), Ok(id));
    assert_eq!(
        read_prompt_result(&id, FindOneOutcome::Record(None)),
        ReadPromptResponse::NotFound(not_found_error("6162636465666768696a6b6c"))
    );
    let stored = StoredPrompt { id, prompt: named("m") };
    let mut expected = named("m");
    expected.identifier = Some("6162636465666768696a6b6c".to_string());
    assert_eq!(
        read_prompt_result(&id, FindOneOutcome::Record(Some(stored))),
        ReadPromptResponse::Found(expected)
    );
}

#[test]
fn checked_create_refuses_an_invalid_prompt() {
    let mut prompt = sample_prompt();
    prompt.identifier = Some("client".to_string());
    assert_eq!(create_prompt_checked(prompt.clone()), Ok(sample_prompt()));
    prompt.temperature = Some(Number::from_bits(2.5f64.to_bits()));
    assert_eq!(create_prompt_checked(prompt.clone()), Err(InvalidField::Temperature));
    prompt.top_logprobs = Some(21);
    assert_eq!(create_prompt_checked(prompt.clone()), Err(InvalidField::TopLogprobs));
    prompt.content[0].role = "root".to_string();
    assert_eq!(create_prompt_checked(prompt), Err(InvalidField::Role));
}

#[test]
fn invalid_field_names() {
    assert_eq!(InvalidField::Role.name(), "content");
    assert_eq!(InvalidField::FrequencyPenalty.name(), "frequency_penalty");
    assert_eq!(InvalidField::TopLogprobs.name(), "top_logprobs");
    assert_eq!(InvalidField::PresencePenalty.name(), "presence_penalty");
    assert_eq!(InvalidField::Temperature.name(), "temperature");
}

#[test]
fn list_step_appends_finishes_or_fails() {
    let first = StoredPrompt { id: ObjectId::from_bytes([1; 12]), prompt: named("a") };
    let second = StoredPrompt { id: ObjectId::from_bytes([2; 12]), prompt: named("b") };
    let read = match read_prompts_step(vec![], CursorEvent::Record(first.clone())) {
        ListStep::Continue(read) => read,
        other => panic!("unexpected step {:?}", other),
    };
    assert_eq!(read, vec![first.clone()]);
    let read = match read_prompts_step(read, CursorEvent::Record(second.clone())) {
        ListStep::Continue(read) => read,
        other => panic!("unexpected step {:?}", other),
    };
    assert_eq!(read, vec![first.clone(), second.clone()]);
    assert_eq!(
        read_prompts_step(read.clone(), CursorEvent::End),
        ListStep::Done(FindOutcome::Records(vec![first, second]))
    );
    let broken = failure(StoreFailureKind::Other, "cursor died");
    let step = read_prompts_step(read, CursorEvent::Failed(broken.clone()));
    assert_eq!(step, ListStep::Done(FindOutcome::Failed(broken.clone())));
    assert_eq!(
        read_prompts_result(FindOutcome::Failed(broken)),
        ReadPromptsResponse::InternalError(internal_error("cursor died"))
    );
    assert_eq!(
        read_prompts_step(vec![], CursorEvent::End),
        ListStep::Done(FindOutcome::Records(vec![]))
    );
}
