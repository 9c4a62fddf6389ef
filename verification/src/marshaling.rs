//! Conversions between wire values and stored values.

pub mod enum_marshaling;
pub mod id_marshaling;
pub mod post_marshaling;
pub mod time_marshaling;
