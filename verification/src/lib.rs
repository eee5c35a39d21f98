//! An access-control policy for the answer column of a submissions table.
//!
//! A policy instance records the identity that owns one protected row value.
//! It answers a yes/no access question for a requester identity, and it can
//! be conservatively merged with another instance covering overlapping data.

pub mod context;
pub mod policies;
