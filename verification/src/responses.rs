//! The result taxonomy: the closed set of outcomes of each repository
//! operation, and the error payload they share.

use vstd::prelude::*;
use vstd::string::StringExecFns;
use crate::entities::Prompt;
use crate::identifier::{hex_encoded, ObjectId};

verus! {

/// The error payload: a message, the kind of error, and the path of the
/// offending field where there is one.
#[derive(Debug, Clone, PartialEq)]
pub struct Error {
    pub message: String,
    pub kind: String,
    pub location: Option<Vec<String>>,
}

/// What an error payload says, as plain text.
pub struct ErrorView {
    pub message: Seq<char>,
    pub kind: Seq<char>,
    pub location: Option<Seq<Seq<char>>>,
}

/// The texts of a path.
pub open spec fn path_view(path: Seq<String>) -> Seq<Seq<char>> {
    Seq::new(path.len(), |i: int| path[i]@)
}

impl View for Error {
    type V = ErrorView;

    open spec fn view(&self) -> ErrorView {
        ErrorView {
            message: self.message@,
            kind: self.kind@,
            location: match self.location {
                Some(path) => Some(path_view(path@)),
                None => None,
            },
        }
    }
}

/// The payload for a store failure that is not classified further: it
/// carries the failure's own description.
pub open spec fn internal_error(description: Seq<char>) -> ErrorView {
    ErrorView { message: description, kind: "InternalServerError"@, location: None }
}

/// The payload for a prompt that the store's uniqueness constraint refused.
pub open spec fn conflict_error() -> ErrorView {
    ErrorView {
        message: "Prompt already exists"@,
        kind: "prompt"@,
        location: Some(seq!["body"@, "name"@]),
    }
}

/// The payload for an identifier that is not well formed.
pub open spec fn invalid_id_error() -> ErrorView {
    ErrorView {
        message: "id must be a 12-byte input or a 24-character hex string"@,
        kind: "InvalidObjectId"@,
        location: Some(seq!["id"@]),
    }
}

/// The payload for an identifier that no prompt has; the message names the
/// identifier in its public form.
pub open spec fn not_found_error(id: Seq<u8>) -> ErrorView {
    ErrorView {
        message: "Prompt not found with ID "@ + hex_encoded(id),
        kind: "PromptNotFound"@,
        location: None,
    }
}

impl Error {
    /// The payload for an unclassified store failure with the given
    /// description.
    pub fn internal(description: String) -> (r: Error)
        ensures
            r@ == internal_error(description@),
    {
        Error {
            message: description,
            kind: String::from_str("InternalServerError"),
            location: None,
        }
    }

    /// The payload for a prompt that already exists.
    pub fn conflict() -> (r: Error)
        ensures
            r@ == conflict_error(),
    {
        let mut path: Vec<String> = Vec::new();
        path.push(String::from_str("body"));
        path.push(String::from_str("name"));
        proof {
            assert(path_view(path@) =~= seq!["body"@, "name"@]);
        }
        Error {
            message: String::from_str("Prompt already exists"),
            kind: String::from_str("prompt"),
            location: Some(path),
        }
    }

    /// The payload for a malformed identifier.
    pub fn invalid_id() -> (r: Error)
        ensures
            r@ == invalid_id_error(),
    {
        let mut path: Vec<String> = Vec::new();
        path.push(String::from_str("id"));
        proof {
            assert(path_view(path@) =~= seq!["id"@]);
        }
        Error {
            message: String::from_str("id must be a 12-byte input or a 24-character hex string"),
            kind: String::from_str("InvalidObjectId"),
            location: Some(path),
        }
    }

    /// The payload for an identifier that no prompt has.
    pub fn not_found(id: &ObjectId) -> (r: Error)
        ensures
            r@ == not_found_error(id@),
    {
        let public = id.encode();
        Error {
            message: String::from_str("Prompt not found with ID ").concat(public.as_str()),
            kind: String::from_str("PromptNotFound"),
            location: None,
        }
    }
}

/// Outcome of creating a prompt.
#[derive(Debug, Clone, PartialEq)]
pub enum CreatePromptResponse {
    /// The prompt as stored, with its identifier.
    Created(Prompt),
    /// The store's uniqueness constraint refused the prompt.
    Conflict(Error),
    InternalError(Error),
}

/// Outcome of listing prompts.
#[derive(Debug, Clone, PartialEq)]
pub enum ReadPromptsResponse {
    Listed(Vec<Prompt>),
    InternalError(Error),
}

/// Outcome of fetching one prompt.
#[derive(Debug, Clone, PartialEq)]
pub enum ReadPromptResponse {
    Found(Prompt),
    NotFound(Error),
    InvalidId(Error),
    InternalError(Error),
}

/// Outcome of deleting one prompt.
#[derive(Debug, Clone, PartialEq)]
pub enum DeletePromptResponse {
    Deleted,
    NotFound(Error),
    InvalidId(Error),
    InternalError(Error),
}

} // verus!
