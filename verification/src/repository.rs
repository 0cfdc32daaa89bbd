//! The prompt repository: what each of the four operations asks of the
//! store, and the response it gives for each thing the store can answer.
//!
//! The store itself is outside: the caller performs the step that an
//! operation's first function returns, and hands what came back to the
//! operation's second function.

use vstd::prelude::*;
use crate::entities::{InvalidField, Prompt};
use crate::filter::{build_filter, filter_clauses, Filter};
use crate::identifier::{decoded, hex_encoded, is_object_id_text, ObjectId};
use crate::number::Number;
use crate::responses::{
    conflict_error, internal_error, invalid_id_error, not_found_error, CreatePromptResponse,
    DeletePromptResponse, Error, ReadPromptResponse, ReadPromptsResponse,
};

verus! {

/// How the store classifies a failure.
#[derive(Debug, Clone, Copy, PartialEq, Eq)]
pub enum StoreFailureKind {
    /// A write was refused; for an insert, by the uniqueness constraint.
    Write,
    /// Anything else.
    Other,
}

/// A failure of the store, with the store's own description of it.
#[derive(Debug, Clone, PartialEq)]
pub struct StoreFailure {
    pub kind: StoreFailureKind,
    pub message: String,
}

/// A prompt as the store holds it, under the identifier the store gave it.
#[derive(Debug, Clone, PartialEq)]
pub struct StoredPrompt {
    pub id: ObjectId,
    pub prompt: Prompt,
}

/// What the store answers to an insert.
#[derive(Debug, Clone, PartialEq)]
pub enum InsertOutcome {
    /// Inserted, under this identifier.
    Inserted(ObjectId),
    Failed(StoreFailure),
}

/// What the store answers to a query for many records, read to its end.
#[derive(Debug, Clone, PartialEq)]
pub enum FindOutcome {
    /// Every record that met the filter, in the store's order.
    Records(Vec<StoredPrompt>),
    /// The query failed, at its start or while it was read.
    Failed(StoreFailure),
}

/// What reading a query's answer one record further gives.
#[derive(Debug, Clone, PartialEq)]
pub enum CursorEvent {
    /// The next record.
    Record(StoredPrompt),
    /// No record is left.
    End,
    /// The read failed.
    Failed(StoreFailure),
}

/// What to do after such a read.
#[derive(Debug, Clone, PartialEq)]
pub enum ListStep {
    /// Read on, with these records read so far.
    Continue(Vec<StoredPrompt>),
    /// Stop: the query's whole answer.
    Done(FindOutcome),
}

/// What the store answers to a lookup of one record.
#[derive(Debug, Clone, PartialEq)]
pub enum FindOneOutcome {
    Record(Option<StoredPrompt>),
    Failed(StoreFailure),
}

/// What the store answers to a delete of at most one record.
#[derive(Debug, Clone, PartialEq)]
pub enum DeleteOutcome {
    /// The number of records deleted.
    Deleted(u64),
    Failed(StoreFailure),
}

/// The prompt with its identifier cleared.
pub open spec fn without_identifier(prompt: Prompt) -> Prompt {
    Prompt { identifier: None, ..prompt }
}

/// Two prompts agree in every field but the identifier.
pub open spec fn same_except_identifier(a: Prompt, b: Prompt) -> bool {
    without_identifier(a) == without_identifier(b)
}

/// `exposed` is `stored` with the public form of `id` as its identifier.
pub open spec fn exposes(exposed: Prompt, stored: Prompt, id: Seq<u8>) -> bool {
    &&& exposed.identifier matches Some(text) && text@ == hex_encoded(id)
    &&& same_except_identifier(exposed, stored)
}

/// The response to a create, for each answer of the store.
pub open spec fn is_create_response(
    response: CreatePromptResponse,
    prompt: Prompt,
    outcome: InsertOutcome,
) -> bool {
    match outcome {
        InsertOutcome::Inserted(id) => response matches CreatePromptResponse::Created(created)
            && exposes(created, prompt, id@),
        InsertOutcome::Failed(failure) => match failure.kind {
            StoreFailureKind::Write => response matches CreatePromptResponse::Conflict(error)
                && error@ == conflict_error(),
            StoreFailureKind::Other => response matches CreatePromptResponse::InternalError(error)
                && error@ == internal_error(failure.message@),
        },
    }
}

/// The response to a list, for each answer of the store: every record, in
/// order, each with its identifier in public form; or the failure, and no
/// record at all.
pub open spec fn is_list_response(response: ReadPromptsResponse, outcome: FindOutcome) -> bool {
    match outcome {
        FindOutcome::Records(records) => response matches ReadPromptsResponse::Listed(prompts) && {
            &&& prompts@.len() == records@.len()
            &&& forall|i: int|
                0 <= i < records@.len() ==> exposes(
                    #[trigger] prompts@[i],
                    records@[i].prompt,
                    records@[i].id@,
                )
        },
        FindOutcome::Failed(failure) => response matches ReadPromptsResponse::InternalError(error)
            && error@ == internal_error(failure.message@),
    }
}

/// The response to a lookup of `id`, for each answer of the store.
pub open spec fn is_read_response(
    response: ReadPromptResponse,
    id: Seq<u8>,
    outcome: FindOneOutcome,
) -> bool {
    match outcome {
        FindOneOutcome::Record(Some(record)) => response matches ReadPromptResponse::Found(found)
            && exposes(found, record.prompt, record.id@),
        FindOneOutcome::Record(None) => response matches ReadPromptResponse::NotFound(error)
            && error@ == not_found_error(id),
        FindOneOutcome::Failed(failure) => response matches ReadPromptResponse::InternalError(error)
            && error@ == internal_error(failure.message@),
    }
}

/// The response to a delete of `id`, for each answer of the store.
pub open spec fn is_delete_response(
    response: DeletePromptResponse,
    id: Seq<u8>,
    outcome: DeleteOutcome,
) -> bool {
    match outcome {
        DeleteOutcome::Deleted(count) => if count == 0 {
            response matches DeletePromptResponse::NotFound(error) && error@ == not_found_error(id)
        } else {
            response == DeletePromptResponse::Deleted
        },
        DeleteOutcome::Failed(failure) => response matches DeletePromptResponse::InternalError(error)
            && error@ == internal_error(failure.message@),
    }
}

/// The stored prompt as callers see it: with the public form of the store's
/// identifier.
pub fn expose(prompt: Prompt, id: &ObjectId) -> (r: Prompt)
    ensures
        exposes(r, prompt, id@),
{
    let mut exposed = prompt;
    exposed.identifier = Some(id.encode());
    exposed
}

/// Decodes the identifier of a request. A malformed one gives the payload
/// that says so, which names the field `id`.
pub fn decode_id(id: &str) -> (r: Result<ObjectId, Error>)
    ensures
        r.is_ok() == is_object_id_text(id@),
        r matches Ok(internal) ==> internal@ == decoded(id@),
        r matches Err(error) ==> error@ == invalid_id_error(),
{
    match ObjectId::decode(id) {
        Some(internal) => Ok(internal),
        None => Err(Error::invalid_id()),
    }
}

/// Create, first step: the document to insert. Whatever identifier the
/// caller supplied is cleared, so that the store assigns a fresh one.
pub fn create_prompt(prompt: Prompt) -> (r: Prompt)
    ensures
        r == without_identifier(prompt),
{
    let mut document = prompt;
    document.identifier = None;
    document
}

/// Create, first step, for a prompt that comes from a caller: a prompt
/// that breaks a bound is refused with the first field that does, and
/// nothing is handed to the store; any other gives the document to insert.
pub fn create_prompt_checked(prompt: Prompt) -> (r: Result<Prompt, InvalidField>)
    ensures
        r == match prompt.first_invalid() {
            Some(field) => Err::<Prompt, InvalidField>(field),
            None => Ok(without_identifier(prompt)),
        },
        r.is_ok() == prompt.is_valid(),
{
    match prompt.validate() {
        Ok(()) => Ok(create_prompt(prompt)),
        Err(field) => Err(field),
    }
}

/// Create, second step: the response for the store's answer to the insert.
pub fn create_prompt_result(prompt: Prompt, outcome: InsertOutcome) -> (r: CreatePromptResponse)
    ensures
        is_create_response(r, prompt, outcome),
{
    match outcome {
        InsertOutcome::Inserted(id) => CreatePromptResponse::Created(expose(prompt, &id)),
        InsertOutcome::Failed(failure) => match failure.kind {
            StoreFailureKind::Write => CreatePromptResponse::Conflict(Error::conflict()),
            StoreFailureKind::Other => CreatePromptResponse::InternalError(
                Error::internal(failure.message),
            ),
        },
    }
}

/// List, first step: the filter to query the store with.
pub fn read_prompts(name: Option<String>, model: Option<String>, temperature: Option<Number>) -> (r:
    Filter)
    ensures
        r@ == filter_clauses(name, model, temperature),
{
    build_filter(name, model, temperature)
}

/// The step after one read of a query's answer, given the records read so
/// far.
pub open spec fn list_step(read: Seq<StoredPrompt>, event: CursorEvent, step: ListStep) -> bool {
    match event {
        CursorEvent::Record(record) => step matches ListStep::Continue(next) && next@
            == read.push(record),
        CursorEvent::End => step matches ListStep::Done(FindOutcome::Records(all)) && all@ == read,
        CursorEvent::Failed(failure) => step == ListStep::Done(FindOutcome::Failed(failure)),
    }
}

/// List, while the answer is read: a record is appended to those read so
/// far; the end finishes with all of them, in order; a failure finishes
/// with the failure, and the records read so far are dropped.
pub fn read_prompts_step(read: Vec<StoredPrompt>, event: CursorEvent) -> (r: ListStep)
    ensures
        list_step(read@, event, r),
{
    match event {
        CursorEvent::Record(record) => {
            let mut next = read;
            next.push(record);
            ListStep::Continue(next)
        },
        CursorEvent::End => ListStep::Done(FindOutcome::Records(read)),
        CursorEvent::Failed(failure) => ListStep::Done(FindOutcome::Failed(failure)),
    }
}

/// List, second step: the response for the store's answer to the query.
pub fn read_prompts_result(outcome: FindOutcome) -> (r: ReadPromptsResponse)
    ensures
        is_list_response(r, outcome),
{
    match outcome {
        FindOutcome::Records(records) => {
            let ghost all = records@;
            let mut rest = records;
            let mut reversed: Vec<Prompt> = Vec::new();
            while rest.len() > 0
                invariant
                    rest@.len() + reversed@.len() == all.len(),
                    rest@ =~= all.subrange(0, rest@.len() as int),
                    forall|j: int|
                        0 <= j < reversed@.len() ==> exposes(
                            #[trigger] reversed@[j],
                            all[all.len() - 1 - j].prompt,
                            all[all.len() - 1 - j].id@,
                        ),
                decreases rest@.len(),
            {
                let record = rest.pop().unwrap();
                reversed.push(expose(record.prompt, &record.id));
            }
            let mut prompts: Vec<Prompt> = Vec::new();
            while reversed.len() > 0
                invariant
                    reversed@.len() + prompts@.len() == all.len(),
                    forall|j: int|
                        0 <= j < reversed@.len() ==> exposes(
                            #[trigger] reversed@[j],
                            all[all.len() - 1 - j].prompt,
                            all[all.len() - 1 - j].id@,
                        ),
                    forall|j: int|
                        0 <= j < prompts@.len() ==> exposes(
                            #[trigger] prompts@[j],
                            all[j].prompt,
                            all[j].id@,
                        ),
                decreases reversed@.len(),
            {
                let prompt = reversed.pop().unwrap();
                prompts.push(prompt);
            }
            ReadPromptsResponse::Listed(prompts)
        },
        FindOutcome::Failed(failure) => ReadPromptsResponse::InternalError(
            Error::internal(failure.message),
        ),
    }
}

/// Get, first step: the identifier to look up, or, for a malformed one, the
/// response, with nothing asked of the store.
pub fn read_prompt(id: &str) -> (r: Result<ObjectId, ReadPromptResponse>)
    ensures
        r.is_ok() == is_object_id_text(id@),
        r matches Ok(internal) ==> internal@ == decoded(id@),
        r matches Err(response) ==> response matches ReadPromptResponse::InvalidId(error) && error@
            == invalid_id_error(),
{
    match decode_id(id) {
        Ok(internal) => Ok(internal),
        Err(error) => Err(ReadPromptResponse::InvalidId(error)),
    }
}

/// Get, second step: the response for the store's answer to the lookup.
pub fn read_prompt_result(id: &ObjectId, outcome: FindOneOutcome) -> (r: ReadPromptResponse)
    ensures
        is_read_response(r, id@, outcome),
{
    match outcome {
        FindOneOutcome::Record(Some(record)) => ReadPromptResponse::Found(
            expose(record.prompt, &record.id),
        ),
        FindOneOutcome::Record(None) => ReadPromptResponse::NotFound(Error::not_found(id)),
        FindOneOutcome::Failed(failure) => ReadPromptResponse::InternalError(
            Error::internal(failure.message),
        ),
    }
}

/// Delete, first step: the identifier to delete, or, for a malformed one,
/// the response, with nothing asked of the store.
pub fn delete_prompt(id: &str) -> (r: Result<ObjectId, DeletePromptResponse>)
    ensures
        r.is_ok() == is_object_id_text(id@),
        r matches Ok(internal) ==> internal@ == decoded(id@),
        r matches Err(response) ==> response matches DeletePromptResponse::InvalidId(error) && error@
            == invalid_id_error(),
{
    match decode_id(id) {
        Ok(internal) => Ok(internal),
        Err(error) => Err(DeletePromptResponse::InvalidId(error)),
    }
}

/// Delete, second step: the response for the store's answer to the delete.
pub fn delete_prompt_result(id: &ObjectId, outcome: DeleteOutcome) -> (r: DeletePromptResponse)
    ensures
        is_delete_response(r, id@, outcome),
{
    match outcome {
        DeleteOutcome::Deleted(count) => {
            if count == 0 {
                DeletePromptResponse::NotFound(Error::not_found(id))
            } else {
                DeletePromptResponse::Deleted
            }
        },
        DeleteOutcome::Failed(failure) => DeletePromptResponse::InternalError(
            Error::internal(failure.message),
        ),
    }
}

} // verus!
