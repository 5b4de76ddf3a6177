//! # input_query
//!
//! Level-triggered keyboard state: "is this key held down right now?", asked
//! without owning a window and without receiving focus-based events.
//!
//! This crate is the verified core of the library. It holds
//!
//! - the platform-independent [`KeyCode`] enumeration,
//! - the key identity table of each backend (logical key to native code),
//!   proved total and injective,
//! - the state accumulator of the event-stream backend, which folds a stream
//!   of raw press/release events into a dense table of pressed keys, and
//! - the masking rule of the synchronous-query backend.
//!
//! Opening devices, reading them, sleeping and locking are left to the caller:
//! every function here works on plain values, and says in its contract what it
//! returns for each of them.

pub mod input_handler;

pub use input_handler::KeyCode;
