//! An encoder for `multipart/form-data` request bodies (RFC 7578).
//!
//! A [`Form`](form::Form) collects the parts of a form under one boundary.
//! A [`Body`](body::Body) made from it yields the encoded bytes chunk by
//! chunk, on demand. The body never reads a byte source by itself: when the
//! part it is encoding is fed by a reader, it asks its driver for the next
//! read and decides what to emit from the outcome.
//!
//! The byte layout is stated once, in [`wire`], and every step of the body is
//! proved against it.

pub mod body;
pub mod boundary;
pub mod client;
pub mod error;
pub mod form;
pub mod laws;
pub mod part;
pub mod wire;
