//! Browser session lifecycle and capture orchestration for a page-to-image
//! service, with every decision stated as a contract and proved.
//!
//! The library decides; the program around it acts. One invocation is a state
//! machine ([`session::Invocation`]) that names the next thing to do with the
//! rendering engine and takes back what happened.

pub mod error;
pub mod text;
pub mod request;
pub mod locator;
pub mod launch;
pub mod session;
pub mod trace;
pub mod service;
pub mod gateway;
