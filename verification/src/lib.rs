//! Matching primitives for incremental maintenance of materialized views over
//! JSON-like documents.
//!
//! The crate models a decoded document as an immutable tree ([`value::Document`])
//! and offers two query operations on it: extraction of a normalized string
//! identifier from a document field ([`access::extract_identifier`]), and a
//! containment test for an element of an array field matching a key/value pair
//! ([`search::contains`]). The containment test dispatches between a scalar
//! scan, a block-unrolled scan and a generic structural scan; all three are
//! proved to return the first matching index, so the choice of strategy never
//! changes the observable result.

pub mod access;
pub mod decimal;
pub mod search;
pub mod value;
