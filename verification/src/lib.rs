//! Entity schema and update semantics for a chat platform backend.
//!
//! The crate models the canonical shape of messages, servers and roles,
//! together with the rules that govern them:
//!
//! - every entity has a partial mirror (all fields optional) used to express
//!   incremental updates, and a merge engine applies a partial plus an
//!   explicit field-removal list onto a canonical entity with
//!   removal-wins precedence;
//! - layered permission overrides (server default, roles ordered by rank,
//!   per-channel override) compose into one effective 64-bit mask;
//! - message queries are normalized into an unambiguous fetch plan;
//! - length and shape constraints gate every partial before it is merged.
//!
//! Everything here is a pure transformation over caller-supplied values;
//! persistence, transport and authorization live outside this crate.

pub mod messages;
pub mod permissions;
pub mod query;
pub mod servers;
pub mod validation;

use vstd::prelude::*;

verus! {

/// The merged value of a required field: the update's value when the update
/// carries one, else the current value unchanged.
pub open spec fn set_or_keep<T>(current: T, update: Option<T>) -> T {
    match update {
        Some(v) => v,
        None => current,
    }
}

/// The merged value of an optional field that is not being removed: present
/// in the update means "set to this value", absent means "leave unchanged".
/// A partial cannot clear such a field; only an explicit removal entry can.
pub open spec fn opt_set_or_keep<T>(current: Option<T>, update: Option<T>) -> Option<T> {
    match update {
        Some(v) => Some(v),
        None => current,
    }
}

} // verus!
