//! Adapter between abstract model tasks and the OpenAI wire protocols.
//!
//! The crate translates an abstract conversation (messages made of typed
//! parts, optional binary attachments, generation parameters) into the
//! provider's request shapes, decides which attachments must be uploaded
//! out-of-band, recovers from capability mismatches by retrying against a
//! substitute model, and keeps a time-bounded cache of the provider's model
//! catalog.  All decision logic is verified; network transfer is left to a
//! thin unverified harness which performs the actions this crate emits and
//! feeds the outcomes back in.

pub mod attachments;
pub mod catalog;
pub mod chat;
pub mod engine;
pub mod error;
pub mod image;
pub mod model;
pub mod responses;
pub mod schema;
pub mod text;
