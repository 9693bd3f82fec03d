//! Random key material: a size literal is parsed into a byte count, and that
//! many bytes of operating-system entropy are streamed out, in chunks of
//! bounded size, to a file that did not exist before.
//!
//! - [`size`] reads size literals such as `32bytes` or `5GB`.
//! - [`stream`] decides, chunk by chunk, what is to be filled and written.
//! - [`sink`] names the default path and sorts the failures of creating.
//! - [`request`] reads a command line; [`failure`] sorts what can go wrong.
//! - [`size_laws`] and [`stream_laws`] state what holds of all of these.
//!
//! Opening the file and writing to it is left to the caller.

pub mod entropy;
pub mod failure;
pub mod request;
pub mod sink;
pub mod size;
pub mod size_laws;
pub mod stream;
pub mod stream_laws;

pub use crate::failure::{Failure, FailureKind};
pub use crate::request::{plan, Request};
pub use crate::size::{parse_size, SizeParseError};
pub use crate::stream::{Action, Event, StreamError, Streamer};
