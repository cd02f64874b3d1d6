//! Safe handle over a native HTTP transfer engine.
//!
//! The engine itself, the file system and the foreign callbacks live outside
//! this library. What is here is the logic around them, verified: which
//! options each operation sets, how delivered bytes are collected, how a
//! status code becomes an error, and the step-by-step session that a driver
//! runs against the engine.

mod binding;
mod bridge;
mod error;
mod request;

pub use binding::{CurlOption, EngineCall, OptionValue, SinkKind, CURLE_OK};
pub use bridge::{append_chunk, chunk_len, decode_body, FileWriteLog};
pub use error::{translate, CurlError};
pub use request::{Event, Operation, Phase, Request, Step, Transfer};
