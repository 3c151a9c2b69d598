//! Safe, verified core of a wrapper around the libvirt C API.
//!
//! The crate is split along the foreign-function boundary. Everything that
//! computes or decides lives here and is verified: version-number decoding,
//! validation of strings bound for C (no nul byte), connection and domain
//! flag bits, translation of the C return-code and last-error conventions
//! into structured results, and the reference-count ownership discipline
//! that governs cloning and closing of the underlying C objects. The
//! foreign calls themselves are performed by an unverified shell, which
//! hands this crate plain values (return codes, returned pointers as
//! integers, captured error records, raw bytes) and receives plain values
//! back.

pub mod cbytes;
pub mod connection;
pub mod domain;
pub mod error;
pub mod refcount;
pub mod text;
pub mod version;
pub mod wrapper;

pub use connection::Connection;
pub use domain::Domain;
pub use error::{Error, VirtError};
pub use version::Version;
pub use wrapper::Wrapper;
