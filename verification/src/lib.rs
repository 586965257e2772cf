//! The ownership and ordering core of a wrapper around a native audio unit.
//!
//! The audio engine is reached through a handful of native primitives that
//! this crate never calls itself. Every operation here is split in two: a
//! function that says which primitive to call and with what, and a function
//! that reads the engine's status and says what it means. The caller performs
//! the native call in between. What is proved is everything the wrapper
//! decides: the order of the life cycle, how property values are sized,
//! which render callback is owned when, and how one render cycle is bridged
//! to the user's callback.

pub mod audio_unit;
pub mod engine;
pub mod error;
