//! Input generation for test-input production pipelines.
//!
//! A generator holds an immutable size bound and produces owned byte-sequence
//! inputs, either randomly through a pluggable randomness capability, or
//! deterministically as a zero-filled dummy of capped length.

mod errors;
mod generators;
mod inputs;
mod rands;

pub use errors::Error;
pub use generators::byte_range;
pub use generators::dummy_bytes;
pub use generators::dummy_len;
pub use generators::lemma_dummy_deterministic;
pub use generators::max_generated_len;
pub use generators::printables;
pub use generators::Generator;
pub use generators::RandBytesGenerator;
pub use generators::RandPrintablesGenerator;
pub use generators::DUMMY_BYTES_MAX;
pub use inputs::BytesInput;
pub use rands::Rand;
pub use rands::StepRand;
