//! What the library takes from other crates, each call behind one small function.

pub mod bytes;
pub mod clock;
pub mod digest;
pub mod ids;
pub mod json;
pub mod keys;
pub mod letters;
pub mod places;
pub mod web;
