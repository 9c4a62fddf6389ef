//! Getting the active server configuration, creating the default one where
//! none is stored yet.

use vstd::prelude::*;
use crate::status::{Code, Reason, Status};

verus! {

/// What looking up the active configuration gave.
pub enum Lookup<T> {
    /// The active configuration.
    Found(T),
    /// None is stored.
    Missing,
    /// The lookup itself failed.
    Failed,
}

/// What to do after the lookup.
pub enum Resolution<T> {
    /// Answer with this configuration.
    Respond(T),
    /// Store the default configuration, then finish with what was stored.
    InsertDefault,
    /// Answer with this failure.
    Fail(Status),
}

pub open spec fn resolution<T>(lookup: Lookup<T>) -> Resolution<T> {
    match lookup {
        Lookup::Found(configuration) => Resolution::Respond(configuration),
        Lookup::Missing => Resolution::InsertDefault,
        Lookup::Failed => Resolution::Fail(
            Status { code: Code::Internal, reason: Reason::DataError },
        ),
    }
}

/// Decides how to go on after the lookup: a stored configuration is the
/// answer, a missing one is created, and a failed lookup is an internal
/// failure.
pub fn get_server_configuration<T>(lookup: Lookup<T>) -> (r: Resolution<T>)
    ensures
        r == resolution(lookup),
{
    match lookup {
        Lookup::Found(configuration) => Resolution::Respond(configuration),
        Lookup::Missing => Resolution::InsertDefault,
        Lookup::Failed => Resolution::Fail(Status::new(Code::Internal, Reason::DataError)),
    }
}

pub open spec fn default_insert_outcome<T>(stored: Option<T>) -> Result<T, Status> {
    match stored {
        Some(configuration) => Ok(configuration),
        None => Err(
            Status {
                code: Code::Internal,
                reason: Reason::ErrorInsertingDefaultServerConfiguration,
            },
        ),
    }
}

/// Finishes after the default was to be stored: what was stored is the
/// answer, and a failed insert is an internal failure.
pub fn finish_default_insert<T>(stored: Option<T>) -> (r: Result<T, Status>)
    ensures
        r == default_insert_outcome(stored),
{
    match stored {
        Some(configuration) => Ok(configuration),
        None => Err(
            Status::new(Code::Internal, Reason::ErrorInsertingDefaultServerConfiguration),
        ),
    }
}

} // verus!
