//! Authorization, validation, moderation and count-maintenance rules of a
//! small social platform, with machine-checked contracts.
//!
//! - [`protos`] and [`models`] hold the wire payloads and the stored rows.
//! - [`permissions`] and [`auth`] decide what an actor may do.
//! - [`rpcs`] validates payloads and admits requests.
//! - [`store`] holds the rows; [`moderation`], [`follows`] and
//!   [`memberships`] are the transitions of the moderated relationships, each
//!   of which recounts the counters that depend on it; [`consistency`] states
//!   the invariant that they keep.
//! - [`marshaling`] converts between stored and wire values.
//! - [`status`] is the error taxonomy.

pub mod auth;
pub mod consistency;
pub mod counts;
pub mod follows;
pub mod marshaling;
pub mod memberships;
pub mod models;
pub mod moderation;
pub mod permissions;
pub mod protos;
pub mod rpcs;
pub mod status;
pub mod store;
pub mod text;
