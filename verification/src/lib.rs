//! Decoding of a small packed instruction stream into a typed command, and
//! the fixed-layout codec for the persisted counter record those commands
//! mutate. Both are pure functions over byte buffers; every failure on
//! malformed input is reported through [`error::DecodeError`].

pub mod error;
pub mod instruction;
pub mod schema;
