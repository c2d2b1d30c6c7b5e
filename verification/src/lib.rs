//! Decisions of a desktop shell that supervises one local backend process and
//! forwards requests to it over HTTP.
//!
//! The crate holds no I/O. Every function takes plain values (what the shell
//! found on the machine, what the backend answered) and returns plain values
//! (what to launch, what to send, what to hand back to the caller), so that
//! each rule of the shell is stated as a contract and proved.
//!
//! - [`paths`] finds the backend's interpreter and entry point.
//! - [`supervisor`] keeps the handle of the one backend process.
//! - [`bridge`] plans a request to the backend and reads its outcome.
//! - [`opener`] picks the command that opens a path.
//! - [`error`] names the failures and their messages.

pub mod text;

pub mod views;

pub mod platform;

pub mod error;

pub mod paths;

pub mod supervisor;

pub mod bridge;

pub mod opener;
