//! Prompt records for language models: the entity model, the identifier
//! codec, the list filter, and the decisions of the four repository
//! operations.

pub mod identifier;
pub mod number;
pub mod entities;
pub mod responses;
pub mod filter;
pub mod repository;
pub mod laws;
