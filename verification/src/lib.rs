//! A primer in small verified pieces: branches and loops, an array and its
//! index, a rectangle, a user record, coins, the first word of a text, and
//! the dialogue of a temperature converter.
//!
//! Every executable function carries a contract that pins its result. The
//! few calls into the standard library that the verifier cannot see through
//! are gathered in [`text`], each behind a contract that is taken on trust.
//! Nothing here reads or prints: the functions hand back what is to be shown.

pub mod coins;
pub mod control_flow;
pub mod data_types;
pub mod functions;
pub mod methods;
pub mod slices;
pub mod structs;
pub mod temperature;
pub mod text;
pub mod variables;
