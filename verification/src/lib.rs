//! Universally unique identifiers: the 128-bit value, its textual and binary
//! encodings, and generators for versions 1, 3, 4, 5, 6, 7 and 8.
//!
//! Every function carries a contract over the mathematical model of a UUID,
//! an unsigned 128-bit integer whose most significant byte is byte 0.

pub mod codec;
pub mod error;
pub mod generate;
pub mod hash;
pub mod order;
pub mod value;

pub use codec::{format_braced, format_hyphenated, format_simple, format_urn, parse};
pub use error::Error;
pub use generate::{
    millis_from_unix, new_v3, new_v5, new_v8, ticks_from_unix, v3_from_digest, v4_from_random,
    v5_from_digest, Clock, Entropy, Generator, MillisState, TimeState,
};
pub use value::{Uuid, Variant};
