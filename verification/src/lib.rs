//! Planning core for moving a single-subvolume root filesystem to a
//! multi-subvolume layout.
//!
//! The crate performs no input or output. [`machine::Migration`] hands out one
//! [`request::Request`] at a time and is told what came of it through a
//! [`request::Reply`]; a driver carries the requests out. Every decision of
//! the procedure is taken here and is stated in a contract.

pub mod cleanup;
pub mod command;
pub mod fstab;
pub mod laws;
pub mod layout;
pub mod locate;
pub mod machine;
pub mod outcome;
pub mod progress;
pub mod request;
pub mod run;
pub mod text;
