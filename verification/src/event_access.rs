//! The access that a request is made with.
use vstd::prelude::*;
use crate::common::{Environment, Id, Ownership, RecordMetadata};
use crate::connection_definition::{ConnectionDefinitionType, Paths};

verus! {

/// The access that a request is made with: whose it is, in which
/// environment, and its limits.
pub struct EventAccess {
    pub id: Id,
    pub name: String,
    pub key: String,
    pub namespace: String,
    pub platform: String,
    pub kind: ConnectionDefinitionType,
    pub group: String,
    pub ownership: Ownership,
    pub paths: Paths,
    pub access_key: String,
    pub environment: Environment,
    pub record_metadata: RecordMetadata,
    pub throughput: u64,
}

} // verus!
