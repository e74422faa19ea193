//! Construction and validation of decentralized identifiers (DIDs),
//! verifiable credentials and verifiable presentations.
//!
//! The crate builds DIDs from a method name and identifier segments,
//! assembles credentials through a fluent builder, wraps them with opaque
//! proof material, bundles them into presentations, and validates the
//! structural and temporal well-formedness of a presentation against an
//! injected clock.  All of it is pure, in-memory computation: no I/O, no
//! hidden time source, no cryptography.

pub mod errors;
pub mod timestamp;
pub mod uri;
pub mod did;
pub mod credential;
pub mod vc;
pub mod presentation;
pub mod validator;
pub mod laws;
pub mod sample;
