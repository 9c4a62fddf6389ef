//! What every request goes through before its operation runs: a storage
//! handle is acquired, and the caller is authenticated where the operation
//! asks for it.

use vstd::prelude::*;
use crate::auth::Actor;
use crate::status::{Code, Reason, Status};

verus! {

/// The operations that callers can invoke.
#[derive(Clone, Copy, Debug, PartialEq, Eq, Structural)]
pub enum Rpc {
    GetServiceVersion,
    CreateAccount,
    Login,
    RefreshToken,
    GetCurrentUser,
    CreatePost,
    GetPosts,
}

/// How much an operation depends on knowing the caller.
#[derive(Clone, Copy, Debug, PartialEq, Eq, Structural)]
pub enum ActorNeed {
    /// The operation never looks at the caller.
    NotUsed,
    /// The operation serves anonymous callers too.
    Optional,
    /// The operation fails without an authenticated caller.
    Required,
}

impl Rpc {
    /// Every operation but the version query works on storage.
    pub open spec fn uses_storage(self) -> bool {
        self != Rpc::GetServiceVersion
    }

    pub open spec fn actor_need(self) -> ActorNeed {
        match self {
            Rpc::GetCurrentUser => ActorNeed::Required,
            Rpc::CreatePost => ActorNeed::Required,
            Rpc::GetPosts => ActorNeed::Optional,
            _ => ActorNeed::NotUsed,
        }
    }

    pub fn needs_actor(self) -> (r: ActorNeed)
        ensures
            r == self.actor_need(),
    {
        match self {
            Rpc::GetCurrentUser => ActorNeed::Required,
            Rpc::CreatePost => ActorNeed::Required,
            Rpc::GetPosts => ActorNeed::Optional,
            _ => ActorNeed::NotUsed,
        }
    }
}

/// What to do once the attempt to acquire a storage handle is over.
#[derive(Clone, Copy, Debug, PartialEq, Eq, Structural)]
pub enum Step {
    /// Answer with this failure.
    Reject(Status),
    /// Authenticate the caller, then go on with the outcome.
    Authenticate,
    /// Run the operation without looking at the caller.
    Run,
}

pub open spec fn connection_failure() -> Status {
    Status { code: Code::Internal, reason: Reason::DatabaseConnectionFailure }
}

pub open spec fn step_after_connection(rpc: Rpc, acquired: bool) -> Step {
    if rpc.uses_storage() && !acquired {
        Step::Reject(connection_failure())
    } else if rpc.actor_need() == ActorNeed::NotUsed {
        Step::Run
    } else {
        Step::Authenticate
    }
}

/// Decides how to go on after the attempt to acquire a storage handle: an
/// operation that works on storage is rejected without one, as an internal
/// failure.
pub fn after_connection(rpc: Rpc, acquired: bool) -> (r: Step)
    ensures
        r == step_after_connection(rpc, acquired),
{
    let uses_storage = match rpc {
        Rpc::GetServiceVersion => false,
        _ => true,
    };
    if uses_storage && !acquired {
        Step::Reject(Status::new(Code::Internal, Reason::DatabaseConnectionFailure))
    } else {
        match rpc.needs_actor() {
            ActorNeed::NotUsed => Step::Run,
            _ => Step::Authenticate,
        }
    }
}

/// The actor that an operation runs with, given how authentication ended.
pub open spec fn admitted_actor(rpc: Rpc, authentication: Result<Actor, Status>) -> Result<
    Option<Actor>,
    Status,
> {
    match rpc.actor_need() {
        ActorNeed::NotUsed => Ok(None),
        ActorNeed::Optional => match authentication {
            Ok(actor) => Ok(Some(actor)),
            Err(_) => Ok(None),
        },
        ActorNeed::Required => match authentication {
            Ok(actor) => Ok(Some(actor)),
            Err(e) => Err(e),
        },
    }
}

/// Decides with which actor the operation runs: one that requires an actor
/// fails as authentication failed, one that serves anonymous callers runs
/// without an actor then.
pub fn after_authentication(rpc: Rpc, authentication: Result<Actor, Status>) -> (r: Result<
    Option<Actor>,
    Status,
>)
    ensures
        r == admitted_actor(rpc, authentication),
{
    match rpc.needs_actor() {
        ActorNeed::NotUsed => Ok(None),
        ActorNeed::Optional => match authentication {
            Ok(actor) => Ok(Some(actor)),
            Err(_) => Ok(None),
        },
        ActorNeed::Required => match authentication {
            Ok(actor) => Ok(Some(actor)),
            Err(e) => Err(e),
        },
    }
}

} // verus!
