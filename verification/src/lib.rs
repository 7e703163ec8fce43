//! Verified core of an identifier-mapping proxy.
//!
//! The library translates a public query shape into the form the upstream
//! mapping service expects, builds the wire-level request bodies and URLs,
//! and drives the submit / poll / fetch job cycle as a verified state
//! machine.  All network traffic is performed by the surrounding
//! application, which feeds responses back into the state machine as plain
//! values.

pub mod runner;
pub mod uniprot;
pub mod uniprot_proxy;
pub mod wire;
