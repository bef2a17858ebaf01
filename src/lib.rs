//! Decoding of ActivityPub / ActivityStreams documents into a normalized
//! object model, and the discoverability (indexing consent) decision made
//! from that model.
pub mod text;
pub mod json;
pub mod url;
pub mod time;
pub mod codec;
pub mod entity;
pub mod discoverable;
pub mod context;
pub mod object;
pub mod image;
pub mod tag;
pub mod attachment;
pub mod actor;
pub mod content;
pub mod activity;
pub mod object_guesser;
