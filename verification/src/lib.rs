//! Lazily reconstructs the byte content of a file stored as a UnixFS Merkle
//! DAG: a tree of immutable blocks, each addressed by a content identifier.
//!
//! The caller supplies the root identifier and an optional byte range, and
//! then drives a [`cat::CatStreamDriver`]: each round the driver names the one
//! block it needs next, the caller fetches it by whatever means it has, and
//! the driver turns the block into at most one non-empty chunk of file bytes.
//! Every failure is attributed to the block that caused it, either because it
//! could not be fetched ([`cat::TraversalFailed::Loading`]) or because its
//! bytes could not be decoded ([`cat::TraversalFailed::Walking`]).

pub mod cat;
pub mod visit;
