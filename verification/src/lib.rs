//! A verified adapter for a hierarchical cloud object store reachable over
//! authenticated HTTPS: it derives a remote request for every filesystem-like
//! operation (create-directory, stat, read, write, delete, list, rename) from
//! a path relative to a configured root, and interprets HTTP status codes as
//! typed operation outcomes. The HTTP transport and the credential/signing
//! collaborators stay outside; this crate builds the requests and classifies
//! the responses.
#![allow(unused_imports)]

pub mod backend;
pub mod config;
pub mod endpoint;
pub mod error;
pub mod lister;
pub mod metadata;
pub mod request;
pub mod text;
pub mod writer;

pub use backend::{AccessorInfo, AzdlsBackend, Capability, OpWrite, StatPlan};
pub use config::{AzdlsBuilder, AzdlsConfig};
pub use endpoint::{infer_storage_name_from_endpoint, normalize_root};
pub use error::{Error, ErrorKind};
pub use lister::{AzdlsLister, ListState};
pub use metadata::{EntryMode, Header, Metadata};
pub use request::{AzdlsCore, ByteRange, HttpMethod, RequestPlan};
pub use writer::{AppendWriter, AzdlsWriters, OneShotWriter};
