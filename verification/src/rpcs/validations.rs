//! Checks that a payload must pass before anything is stored. Each stops at
//! the first violation and reports it.

use vstd::prelude::*;

pub mod laws;
pub mod validate_groups;
pub mod validate_strings;
pub mod validate_users;

verus! {

/// What a request wants to do with the entity it carries.
#[derive(Clone, Copy, Debug, PartialEq, Eq, Structural)]
pub enum OperationType {
    Create,
    Update,
    Delete,
}

} // verus!
