//! A safe boundary layer for exchanging strings and fixed-size byte buffers
//! with a foreign caller that does not share the native ownership
//! discipline.
//!
//! Two components:
//!
//! - [`buffer::CStrBuf`]: an owned, fixed-capacity, zero-initialized byte
//!   buffer that a foreign writer fills in place, with three extraction
//!   modes (borrow, copy, consume) that locate the content by scanning for
//!   the first zero byte.
//! - [`boundary`]: a synchronous request/response adapter that copies a
//!   caller-owned byte sequence, decodes it, runs the domain function, and
//!   wraps the outcome in a tagged envelope that is always valid under the
//!   external codec.

pub mod boundary;
pub mod buffer;
pub mod text;
