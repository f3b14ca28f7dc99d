//! Reading a person from a small text resource of the form `name,surname`.
//!
//! The bytes of the resource are decoded as UTF-8 and the text is split on the
//! comma into exactly two fields. The first stage that fails ends the work, and
//! the failure says which stage it was and why.

pub mod error;
pub mod person;
pub mod pipeline;
pub mod split;
