//! Metadata records and the generic header-to-metadata routine: standard
//! size, modified-time and etag headers become a typed record, and the
//! remote-reported resource type disambiguates file from directory.
use vstd::prelude::*;

use crate::text::{eq_ignore_ascii_case, spec_parse_u64, str_eq_ignore_ascii_case, str_to_chars,
    parse_u64_chars};

verus! {

broadcast use vstd::string::group_string_axioms;

/// The remote-reported classification of a path.
#[derive(Clone, Copy, PartialEq, Eq, Debug, Structural)]
pub enum EntryMode {
    /// A regular object.
    File,
    /// A directory.
    Dir,
    /// Not yet determined.
    Unknown,
}

/// One response header: a name and a value.
#[derive(Debug)]
pub struct Header {
    /// Header name; matched case-insensitively.
    pub name: String,
    /// Header value.
    pub value: String,
}

/// A metadata record for one remote object.
#[derive(Debug)]
pub struct Metadata {
    /// File or directory.
    pub mode: EntryMode,
    /// Size in bytes, zero when the remote reports none.
    pub content_length: u64,
    /// Entity tag, if the remote reports one.
    pub etag: Option<String>,
    /// Last-modified stamp, if the remote reports one.
    pub last_modified: Option<String>,
}

impl Metadata {
    /// A fresh record of the given mode with nothing else known.
    pub fn new(mode: EntryMode) -> (m: Metadata)
        ensures
            m.mode == mode,
            m.content_length == 0,
            m.etag is None,
            m.last_modified is None,
    {
        Metadata { mode, content_length: 0, etag: None, last_modified: None }
    }
}

/// The value of the first header whose name matches `name` up to ASCII case.
pub open spec fn spec_header_lookup(h: Seq<Header>, name: Seq<char>) -> Option<Seq<char>>
    decreases h.len(),
{
    if h.len() == 0 {
        None
    } else if eq_ignore_ascii_case(h[0].name@, name) {
        Some(h[0].value@)
    } else {
        spec_header_lookup(h.skip(1), name)
    }
}

/// Find the first header named `name`, case-insensitively.
pub fn find_header(headers: &Vec<Header>, name: &str) -> (r: Option<String>)
    ensures
        r.deep_view() == spec_header_lookup(headers@, name@),
{
    let n = headers.len();
    proof {
        assert(headers@.skip(0) =~= headers@);
    }
    let mut i: usize = 0;
    while i < n
        invariant
            n == headers@.len(),
            i <= n,
            spec_header_lookup(headers@, name@) == spec_header_lookup(
                headers@.skip(i as int),
                name@,
            ),
        decreases n - i,
    {
        proof {
            assert(headers@.skip(i as int)[0] == headers@[i as int]);
            assert(headers@.skip(i as int).skip(1) =~= headers@.skip(i + 1));
        }
        if str_eq_ignore_ascii_case(headers[i].name.as_str(), name) {
            return Some(headers[i].value.clone());
        }
        i = i + 1;
    }
    proof {
        assert(headers@.skip(n as int) =~= Seq::<Header>::empty());
    }
    None
}

/// What the size header of a response parses to: the value as a decimal
/// number, `None` when the header is absent, and an error marker when it is
/// present but does not parse.
pub open spec fn spec_content_length(h: Seq<Header>) -> Result<Option<u64>, ()> {
    match spec_header_lookup(h, "content-length"@) {
        None => Ok(None),
        Some(v) => match spec_parse_u64(v) {
            Some(n) => Ok(Some(n)),
            None => Err(()),
        },
    }
}

/// Parse the standard size, etag and modified-time headers into a record of
/// mode `mode`; fails exactly when a size header is present but is not a
/// decimal number.
pub fn parse_metadata_headers(headers: &Vec<Header>, mode: EntryMode) -> (r: Result<
    Metadata,
    crate::error::Error,
>)
    ensures
        r is Ok <==> spec_content_length(headers@) is Ok,
        r matches Ok(m) ==> {
            &&& m.mode == mode
            &&& m.content_length == (match spec_content_length(headers@) {
                Ok(Some(n)) => n,
                _ => 0,
            })
            &&& m.etag.deep_view() == spec_header_lookup(headers@, "etag"@)
            &&& m.last_modified.deep_view() == spec_header_lookup(headers@, "last-modified"@)
        },
        r matches Err(e) ==> e.kind == crate::error::ErrorKind::Unexpected,
{
    let content_length: u64 = match find_header(headers, "content-length") {
        None => 0,
        Some(v) => {
            let chars = str_to_chars(v.as_str());
            match parse_u64_chars(&chars) {
                Some(n) => n,
                None => {
                    return Err(
                        crate::error::Error::unexpected(
                            "stat",
                            "the remote reported a size that is not a decimal number",
                        ),
                    );
                },
            }
        },
    };
    let etag = find_header(headers, "etag");
    let last_modified = find_header(headers, "last-modified");
    Ok(Metadata { mode, content_length, etag, last_modified })
}

/// The resource type a stat response reports: file, directory, or something
/// this adapter does not recognize.
pub fn parse_resource_type(value: &str) -> (r: Option<EntryMode>)
    ensures
        value@ == "file"@ ==> r == Some(EntryMode::File),
        value@ == "directory"@ ==> r == Some(EntryMode::Dir),
        value@ != "file"@ && value@ != "directory"@ ==> r is None,
{
    proof {
        reveal_strlit("file");
        reveal_strlit("directory");
        assert("file"@.len() == 4);
        assert("directory"@.len() == 9);
        assert("file"@ != "directory"@);
    }
    if crate::text::str_eq(value, "file") {
        Some(EntryMode::File)
    } else if crate::text::str_eq(value, "directory") {
        Some(EntryMode::Dir)
    } else {
        None
    }
}

} // verus!
