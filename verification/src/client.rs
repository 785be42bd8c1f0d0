//! The client side of `multipart/form-data`: what a program needs to send
//! a form.

pub mod multipart;

pub use crate::error::Error;
