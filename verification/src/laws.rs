//! What holds across the repository's operations, stated over a model of
//! the collection: the prompts it holds, by the bytes of their identifiers.
//! The store assigns each record one identifier, so a map models it.

use vstd::prelude::*;
use crate::entities::Prompt;
use crate::identifier::{
    decoded, hex_decoded, is_object_id_hex, is_object_id_text, lemma_decode_encode, ObjectId,
};
use crate::repository::{
    is_create_response, is_delete_response, is_read_response, same_except_identifier,
    without_identifier, DeleteOutcome, FindOneOutcome, InsertOutcome, StoredPrompt,
};
use crate::responses::{
    not_found_error, CreatePromptResponse, DeletePromptResponse, ReadPromptResponse,
};

verus! {

/// The collection after `document` was inserted under `id`.
pub open spec fn after_insert(
    collection: Map<Seq<u8>, Prompt>,
    id: Seq<u8>,
    document: Prompt,
) -> Map<Seq<u8>, Prompt> {
    collection.insert(id, document)
}

/// The store's answer to a lookup of `id`.
pub open spec fn lookup(collection: Map<Seq<u8>, Prompt>, id: ObjectId) -> FindOneOutcome {
    if collection.contains_key(id@) {
        FindOneOutcome::Record(Some(StoredPrompt { id, prompt: collection[id@] }))
    } else {
        FindOneOutcome::Record(None)
    }
}

/// The store's answer to a delete of at most one record with `id`.
pub open spec fn delete_one(collection: Map<Seq<u8>, Prompt>, id: Seq<u8>) -> DeleteOutcome {
    if collection.contains_key(id) {
        DeleteOutcome::Deleted(1)
    } else {
        DeleteOutcome::Deleted(0)
    }
}

/// The collection after such a delete.
pub open spec fn after_delete(collection: Map<Seq<u8>, Prompt>, id: Seq<u8>) -> Map<
    Seq<u8>,
    Prompt,
> {
    collection.remove(id)
}

/// The identifier of a created prompt is well formed and decodes to the
/// identifier that the store assigned.
pub proof fn lemma_created_identifier_decodes(
    prompt: Prompt,
    id: ObjectId,
    response: CreatePromptResponse,
)
    requires
        is_create_response(response, prompt, InsertOutcome::Inserted(id)),
    ensures
        response matches CreatePromptResponse::Created(created) && created.identifier matches Some(
            text,
        ) && is_object_id_hex(text@) && hex_decoded(text@) == id@ && is_object_id_text(text@)
            && decoded(text@) == id@,
{
    lemma_decode_encode(id@);
}

/// Creating a prompt and then fetching it by the identifier it was given
/// yields the prompt that was handed in, but for the identifier; and the
/// identifier is the one that the create returned.
pub proof fn lemma_create_then_read(
    collection: Map<Seq<u8>, Prompt>,
    prompt: Prompt,
    id: ObjectId,
    created: CreatePromptResponse,
    fetched: ReadPromptResponse,
)
    requires
        is_create_response(created, prompt, InsertOutcome::Inserted(id)),
        is_read_response(
            fetched,
            id@,
            lookup(after_insert(collection, id@, without_identifier(prompt)), id),
        ),
    ensures
        created matches CreatePromptResponse::Created(first) && fetched matches ReadPromptResponse::Found(
            second,
        ) && first.identifier matches Some(given) && second.identifier matches Some(seen) && seen@
            == given@ && same_except_identifier(second, prompt),
{
}

/// Deleting twice by the identifier of a prompt that the collection holds
/// deletes it the first time and finds nothing the second time.
pub proof fn lemma_delete_twice(
    collection: Map<Seq<u8>, Prompt>,
    id: ObjectId,
    first: DeletePromptResponse,
    second: DeletePromptResponse,
)
    requires
        collection.contains_key(id@),
        is_delete_response(first, id@, delete_one(collection, id@)),
        is_delete_response(second, id@, delete_one(after_delete(collection, id@), id@)),
    ensures
        first == DeletePromptResponse::Deleted,
        second matches DeletePromptResponse::NotFound(error) && error@ == not_found_error(id@),
{
}

/// Deleting by an identifier that the collection does not hold finds
/// nothing and leaves the collection as it was.
pub proof fn lemma_delete_absent(
    collection: Map<Seq<u8>, Prompt>,
    id: ObjectId,
    response: DeletePromptResponse,
)
    requires
        !collection.contains_key(id@),
        is_delete_response(response, id@, delete_one(collection, id@)),
    ensures
        response is NotFound,
        after_delete(collection, id@) == collection,
{
    assert(after_delete(collection, id@) =~= collection);
}

} // verus!
