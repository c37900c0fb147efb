//! The uniform operation contract: each operation derives its remote request
//! from the shared core and classifies the response status into a typed
//! success, a tolerated benign condition, or a typed error. The success sets
//! differ per operation: delete accepts a missing object, rename's
//! parent-creation phase accepts a conflict, rename itself does not.
use std::sync::Arc;

use vstd::prelude::*;

use vstd::string::StringExecFns;

use crate::error::{Error, ErrorKind};
use crate::metadata::{
    EntryMode, Header, Metadata, parse_metadata_headers, parse_resource_type, spec_content_length,
    spec_header_lookup,
};
use crate::request::{AzdlsCore, HttpMethod, RequestPlan};
use crate::writer::{arc_clone, AppendWriter, AzdlsWriters, OneShotWriter};
use crate::lister::AzdlsLister;

verus! {

/// The request succeeded.
pub const STATUS_OK: u16 = 200;

/// The object or directory was created.
pub const STATUS_CREATED: u16 = 201;

/// A range-restricted read succeeded.
pub const STATUS_PARTIAL_CONTENT: u16 = 206;

/// The object does not exist.
pub const STATUS_NOT_FOUND: u16 = 404;

/// The operation conflicts with existing state, such as a directory that
/// already exists.
pub const STATUS_CONFLICT: u16 = 409;

/// The static capability descriptor this backend advertises.
#[derive(Clone, Copy, PartialEq, Eq, Debug, Structural)]
pub struct Capability {
    pub stat: bool,
    pub read: bool,
    pub write: bool,
    pub write_can_append: bool,
    pub create_dir: bool,
    pub delete: bool,
    pub rename: bool,
    pub list: bool,
}

/// What an orchestrating caller learns about this backend: its scheme, root,
/// name, and capabilities.
pub struct AccessorInfo {
    /// The scheme this adapter serves.
    pub scheme: String,
    /// The normalized root.
    pub root: String,
    /// The filesystem name.
    pub name: String,
    /// The static capability flags.
    pub native_capability: Capability,
}

/// Arguments of one write call.
#[derive(Clone, Copy, PartialEq, Eq, Debug, Structural)]
pub struct OpWrite {
    /// Whether append semantics are requested.
    pub append: bool,
}

/// How a stat call proceeds: the root path is answered on the spot, any
/// other path needs a remote round trip.
pub enum StatPlan {
    /// The record is already known; no request is issued.
    Ready(Metadata),
    /// The metadata-only request to send.
    Fetch(RequestPlan),
}

/// The backend: the uniform operation contract over one shared core.
pub struct AzdlsBackend {
    /// Shared immutable connection state.
    pub core: Arc<AzdlsCore>,
}

impl AzdlsBackend {
    /// Well-formedness of the shared core.
    pub open spec fn wf(&self) -> bool {
        self.core.wf()
    }

    /// The capability descriptor: everything this adapter implements.
    pub fn info(&self) -> (am: AccessorInfo)
        ensures
            am.scheme@ == "azdls"@,
            am.root@ == self.core.root@,
            am.name@ == self.core.filesystem@,
            am.native_capability == (Capability {
                stat: true,
                read: true,
                write: true,
                write_can_append: true,
                create_dir: true,
                delete: true,
                rename: true,
                list: true,
            }),
    {
        AccessorInfo {
            scheme: String::from_str("azdls"),
            root: self.core.root.clone(),
            name: self.core.filesystem.clone(),
            native_capability: Capability {
                stat: true,
                read: true,
                write: true,
                write_can_append: true,
                create_dir: true,
                delete: true,
                rename: true,
                list: true,
            },
        }
    }

    /// Classify a create-directory response: success on `created` or `ok`,
    /// anything else is a remote failure.
    pub fn create_dir_response(&self, status: u16, body: Vec<u8>) -> (r: Result<(), Error>)
        ensures
            r is Ok <==> (status == STATUS_CREATED || status == STATUS_OK),
            r matches Err(e) ==> {
                &&& e.kind == ErrorKind::RemoteOperationFailed
                &&& e.status == Some(status)
                &&& e.body@ == body@
                &&& e.operation@ == "create_dir"@
            },
    {
        if status == STATUS_CREATED || status == STATUS_OK {
            Ok(())
        } else {
            Err(Error::remote_operation_failed("create_dir", status, body))
        }
    }

    /// How to stat `path`: the root is always a directory and needs no
    /// request; any other path is fetched with a metadata-only request.
    pub fn stat_plan(&self, path: &str) -> (r: StatPlan)
        requires
            self.wf(),
        ensures
            path@ == "/"@ ==> (r matches StatPlan::Ready(m) && m == (Metadata {
                mode: EntryMode::Dir,
                content_length: 0,
                etag: None,
                last_modified: None,
            })),
            path@ != "/"@ ==> (r matches StatPlan::Fetch(req) && {
                &&& req.method == HttpMethod::Head
                &&& req.url@ == self.core.spec_object_url(path@)
                &&& req.rename_source is None
                &&& req.range is None
                &&& req.body@ == Seq::<u8>::empty()
            }),
    {
        if crate::text::str_eq(path, "/") {
            StatPlan::Ready(Metadata::new(EntryMode::Dir))
        } else {
            StatPlan::Fetch(self.core.get_properties_request(path))
        }
    }

    /// Classify a stat response: only `ok` succeeds; the standard metadata
    /// headers are parsed and the remote-reported resource type picks file or
    /// directory, a missing or unrecognized value being a contract violation
    /// by the remote.
    pub fn stat_response(&self, status: u16, headers: &Vec<Header>, body: Vec<u8>) -> (r: Result<
        Metadata,
        Error,
    >)
        ensures
            status != STATUS_OK ==> (r matches Err(e) && {
                &&& e.kind == ErrorKind::RemoteOperationFailed
                &&& e.status == Some(status)
                &&& e.body@ == body@
                &&& e.operation@ == "stat"@
            }),
            status == STATUS_OK ==> match spec_header_lookup(headers@, "x-ms-resource-type"@) {
                None => r matches Err(e) && e.kind == ErrorKind::Unexpected,
                Some(v) => {
                    if spec_content_length(headers@) is Err {
                        r matches Err(e) && e.kind == ErrorKind::Unexpected
                    } else if v == "file"@ || v == "directory"@ {
                        r matches Ok(m) && {
                            &&& m.mode == (if v == "file"@ {
                                EntryMode::File
                            } else {
                                EntryMode::Dir
                            })
                            &&& m.content_length == (match spec_content_length(headers@) {
                                Ok(Some(n)) => n,
                                _ => 0,
                            })
                            &&& m.etag.deep_view() == spec_header_lookup(headers@, "etag"@)
                            &&& m.last_modified.deep_view() == spec_header_lookup(
                                headers@,
                                "last-modified"@,
                            )
                        }
                    } else {
                        r matches Err(e) && e.kind == ErrorKind::Unexpected
                    }
                },
            },
    {
        if status != STATUS_OK {
            return Err(Error::remote_operation_failed("stat", status, body));
        }
        let meta = match parse_metadata_headers(headers, EntryMode::Unknown) {
            Ok(m) => m,
            Err(e) => {
                return Err(e);
            },
        };
        let resource = match crate::metadata::find_header(headers, "x-ms-resource-type") {
            Some(v) => v,
            None => {
                return Err(
                    Error::unexpected(
                        "stat",
                        "the remote should report a resource type, but it is missing",
                    ),
                );
            },
        };
        let mode = match parse_resource_type(resource.as_str()) {
            Some(m) => m,
            None => {
                return Err(
                    Error::unexpected("stat", "the remote reported an unsupported resource type"),
                );
            },
        };
        Ok(Metadata { mode, ..meta })
    }

    /// Classify a read response: success on a full or a partial-content
    /// status; anything else is a remote failure carrying the drained body.
    pub fn read_response(&self, status: u16, body: Vec<u8>) -> (r: Result<(), Error>)
        ensures
            r is Ok <==> (status == STATUS_OK || status == STATUS_PARTIAL_CONTENT),
            r matches Err(e) ==> {
                &&& e.kind == ErrorKind::RemoteOperationFailed
                &&& e.status == Some(status)
                &&& e.body@ == body@
                &&& e.operation@ == "read"@
            },
    {
        if status == STATUS_OK || status == STATUS_PARTIAL_CONTENT {
            Ok(())
        } else {
            Err(Error::remote_operation_failed("read", status, body))
        }
    }

    /// Choose the upload strategy for one write call: append semantics yield
    /// the append-capable writer, otherwise the one-shot writer; no request
    /// is sent yet.
    pub fn write(&self, path: &str, args: OpWrite) -> (w: AzdlsWriters)
        ensures
            args.append ==> (w matches AzdlsWriters::Two(aw) && {
                &&& aw.core == self.core
                &&& aw.path@ == path@
                &&& aw.offset == 0
            }),
            !args.append ==> (w matches AzdlsWriters::One(ow) && {
                &&& ow.core == self.core
                &&& ow.path@ == path@
                &&& ow.buf@ == Seq::<u8>::empty()
            }),
    {
        let core = arc_clone(&self.core);
        let path_string = String::from_str(path);
        if args.append {
            AzdlsWriters::Two(AppendWriter::new(core, path_string))
        } else {
            AzdlsWriters::One(OneShotWriter::new(core, path_string))
        }
    }

    /// Classify a delete response: absence is a successful, idempotent
    /// delete, so both `ok` and `not found` succeed.
    pub fn delete_response(&self, status: u16, body: Vec<u8>) -> (r: Result<(), Error>)
        ensures
            r is Ok <==> (status == STATUS_OK || status == STATUS_NOT_FOUND),
            r matches Err(e) ==> {
                &&& e.kind == ErrorKind::RemoteOperationFailed
                &&& e.status == Some(status)
                &&& e.body@ == body@
                &&& e.operation@ == "delete"@
            },
    {
        if status == STATUS_OK || status == STATUS_NOT_FOUND {
            Ok(())
        } else {
            Err(Error::remote_operation_failed("delete", status, body))
        }
    }

    /// The single-page lister for `path`, bound to this core and an optional
    /// per-page result cap.
    pub fn list(&self, path: &str, limit: Option<u64>) -> (l: AzdlsLister)
        ensures
            l.core == self.core,
            l.path@ == path@,
            l.limit == limit,
            l.state is Start,
    {
        AzdlsLister::new(arc_clone(&self.core), String::from_str(path), limit)
    }

    /// Classify the response of rename's parent-creation phase: `created`
    /// succeeds, and `conflict` is deliberately tolerated so that a race with
    /// a concurrent directory creation does not fail the rename; anything
    /// else aborts before the rename request is issued.
    pub fn rename_parent_response(&self, status: u16, body: Vec<u8>) -> (r: Result<(), Error>)
        ensures
            r is Ok <==> (status == STATUS_CREATED || status == STATUS_CONFLICT),
            r matches Err(e) ==> {
                &&& e.kind == ErrorKind::RemoteOperationFailed
                &&& e.status == Some(status)
                &&& e.body@ == body@
                &&& e.operation@ == "rename"@
            },
    {
        if status == STATUS_CREATED || status == STATUS_CONFLICT {
            Ok(())
        } else {
            Err(Error::remote_operation_failed("rename", status, body))
        }
    }

    /// Decide rename's second phase from the outcome of its first. `parent`
    /// is the status and body of the parent-creation response, or `None`
    /// when no request was issued because the destination's parent is the
    /// root. The rename request is issued exactly when no parent-creation
    /// request was sent or its status was `created` or the tolerated
    /// `conflict`; any other status aborts the rename.
    pub fn rename_after_parent(&self, from: &str, to: &str, parent: Option<(u16, Vec<u8>)>) -> (r:
        Result<RequestPlan, Error>)
        requires
            self.wf(),
        ensures
            r is Err <==> (parent matches Some(p) && !(p.0 == STATUS_CREATED || p.0
                == STATUS_CONFLICT)),
            r matches Err(e) ==> {
                &&& e.kind == ErrorKind::RemoteOperationFailed
                &&& e.status == Some(parent->Some_0.0)
                &&& e.body@ == parent->Some_0.1@
                &&& e.operation@ == "rename"@
            },
            r matches Ok(req) ==> {
                &&& req.method == HttpMethod::Put
                &&& req.url@ == self.core.spec_object_url(to@)
                &&& req.rename_source.deep_view() == Some(
                    crate::request::spec_rename_source(*self.core, from@),
                )
                &&& req.range is None
                &&& req.body@ == Seq::<u8>::empty()
            },
    {
        match parent {
            Some((status, body)) => {
                match self.rename_parent_response(status, body) {
                    Ok(()) => {},
                    Err(e) => {
                        return Err(e);
                    },
                }
            },
            None => {},
        }
        Ok(self.core.rename_request(from, to))
    }

    /// Classify the rename response itself: only `created` succeeds.
    pub fn rename_response(&self, status: u16, body: Vec<u8>) -> (r: Result<(), Error>)
        ensures
            r is Ok <==> status == STATUS_CREATED,
            r matches Err(e) ==> {
                &&& e.kind == ErrorKind::RemoteOperationFailed
                &&& e.status == Some(status)
                &&& e.body@ == body@
                &&& e.operation@ == "rename"@
            },
    {
        if status == STATUS_CREATED {
            Ok(())
        } else {
            Err(Error::remote_operation_failed("rename", status, body))
        }
    }
}

} // verus!
