//! Decoding and validation of QCOW2 image headers.
//!
//! The crate turns the leading bytes of a QCOW2 image into a structured
//! [`Qcow2Metadata`] value and checks the decoded fields against the
//! consistency rules of the format. It performs no I/O: callers hand it
//! bytes and, for the backing-file check, the outcome of their own read.

pub mod bytes;
pub mod decode;
pub mod error;
pub mod extension;
pub mod fetch;
pub mod header;
pub mod theorems;
pub mod validate;

pub use decode::decode;
pub use error::{DecodeError, Violation};
pub use fetch::{next_read, version_3_read, HeaderRead};
pub use header::{
    ExtensionModel, MetadataModel, Qcow2Header, Qcow2HeaderExtension, Qcow2Metadata, Qcow2V3Header,
    QCOW2_MAGIC,
};
pub use validate::{validate, validate_image, ValidateQcow2Struct};
