//! A durable, versioned cache layer over an ordered persistent key-value
//! engine.
//!
//! Values are framed on disk as a triple of optional absolute expiry
//! timestamp, schema version, and opaque payload bytes.  Reads enforce
//! expiry and schema-version policy synchronously; a pure compaction
//! filter lets the engine reclaim expired records in the background.

pub mod codec;
mod clock;
pub mod filter;
pub mod laws;
pub mod store;
pub mod timeconv;
pub mod traits;

pub use codec::DecodeError;
pub use codec::Frame;
pub use filter::Decision;
pub use traits::Cachable;
