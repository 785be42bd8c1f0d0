//! The data structures for building a multipart/form body to send to a
//! server.

pub use crate::body::{Body, ReadOutcome, Step, CHUNK_SIZE};
pub use crate::boundary::BoundaryGenerator;
pub use crate::form::{FileError, FileInfo, Form};
pub use crate::part::Part;
