//! Builds a role-assumption request from command-line input, validates what
//! the trust service hands back, and describes the child process that runs
//! with the temporary credentials.
//!
//! `session` ties the pieces together as a state machine: the caller performs
//! each action it asks for (a lookup, a file read, the trust-service call, a
//! spawn) and feeds the outcome back as an event.

pub mod child;
pub mod credentials;
pub mod error;
pub mod naming;
pub mod policy;
pub mod request;
pub mod role;
pub mod session;
pub mod tag;
