//! Serialization of HTTP/1.x request and status lines, header lines and the
//! blank line that ends a message head, into a byte buffer.
//!
//! A [`Request`] or [`Response`] is assembled by chained calls and then
//! written once; the checked writers validate every component before it is
//! emitted and return the exact number of bytes written.

mod header;
pub mod version;
mod uri;
mod request;
mod status;
mod response;

pub use header::{Header, HeaderWriteError, write_header, write_header_unchecked};
pub use request::{Method, Query, Request, RequestWriteError};
pub use response::{Response, ResponseWriteError};
pub use status::StatusCode;
pub use version::Version;
