//! A ring-buffered frame streaming engine.
//!
//! A filler publishes frames into a fixed ring of buffers while a processor
//! hands every completed frame, oldest first, to a consumer. The indexing
//! protocol, the overflow rules, the synthetic frame source and the session
//! lifecycle are specified and proved here, beside the status codes of the
//! motorised stages; the threads that run the engine live outside this crate.
pub mod ring;
pub mod processor;
pub mod filler;
pub mod error;
pub mod stream;
pub mod lifecycle;
pub mod camera;
pub mod stage;
