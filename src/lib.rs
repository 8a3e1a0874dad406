//! A very small owned, immutable string: up to 255 bytes, short content kept
//! inline, longer content in one exclusively owned buffer.

pub mod buffer;
pub mod laws;
pub mod layout;
pub mod text;
pub mod tiny_str;

pub use layout::{INLINE_LEN, MAX_LEN, PREFIX_LEN, SUFFIX_LEN};
pub use tiny_str::{TinyBoxedStr, TooLongError};
