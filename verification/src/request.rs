//! Shared immutable connection state and the per-operation request
//! constructors. A request is described as plain values (verb, URL, marker
//! headers, body); the transport that sends it and the collaborator that
//! signs it stay outside this crate.
use vstd::prelude::*;

use crate::text::{str_to_chars, chars_to_string, spec_dec, u64_to_dec_chars};
use crate::endpoint::is_normalized_root;

verus! {

/// Declares `reqsign::AzureStorageLoader`, the credential loader
/// collaborator, as an opaque outside type.
#[verifier::external_type_specification]
#[verifier::external_body]
pub struct ExAzureStorageLoader(reqsign::AzureStorageLoader);

/// Declares `reqsign::AzureStorageSigner`, the signing collaborator, as an
/// opaque outside type.
#[verifier::external_type_specification]
#[verifier::external_body]
pub struct ExAzureStorageSigner(reqsign::AzureStorageSigner);

/// Declares `reqwest::Client`, the transport handle, as an opaque outside
/// type.
#[verifier::external_type_specification]
#[verifier::external_body]
pub struct ExReqwestClient(reqwest::Client);

/// Relies on `reqsign::AzureStorageLoader::new` and the field-wise
/// construction of `reqsign::AzureStorageConfig`: building a loader stores
/// the given credentials and performs no network activity.
#[verifier::external_body]
pub fn new_credential_loader(
    account_name: Option<String>,
    account_key: Option<String>,
    client_id: Option<String>,
    client_secret: Option<String>,
    tenant_id: Option<String>,
    authority_host: Option<String>,
) -> reqsign::AzureStorageLoader {
    let config = reqsign::AzureStorageConfig {
        account_name,
        account_key,
        sas_token: None,
        client_id,
        client_secret,
        tenant_id,
        authority_host,
        ..Default::default()
    };
    reqsign::AzureStorageLoader::new(config)
}

/// Relies on `reqsign::AzureStorageSigner::new`: a fresh signer holds no
/// state and performs no network activity.
#[verifier::external_body]
pub fn new_request_signer() -> reqsign::AzureStorageSigner {
    reqsign::AzureStorageSigner::new()
}

/// Relies on `reqwest::Client::builder` and `reqwest::ClientBuilder::build`:
/// constructing a default transport handle, `None` only when the client
/// cannot be initialized.
#[verifier::external_body]
pub fn new_http_client() -> Option<reqwest::Client> {
    reqwest::Client::builder().build().ok()
}

/// The HTTP verb of a request.
#[derive(Clone, Copy, PartialEq, Eq, Debug, Structural)]
pub enum HttpMethod {
    Get,
    Head,
    Put,
    Patch,
    Delete,
}

/// An unsigned remote request, described as plain values: the verb, the full
/// URL, the operation-selecting marker headers, and the body.
#[derive(Debug)]
pub struct RequestPlan {
    /// The HTTP verb.
    pub method: HttpMethod,
    /// The full request URL, query included.
    pub url: String,
    /// The rename-source marker header, on a rename request.
    pub rename_source: Option<String>,
    /// The byte-range marker header, on a partial read request.
    pub range: Option<String>,
    /// The request body.
    pub body: Vec<u8>,
}

/// A byte range of a read: a start offset and an optional length.
#[derive(Clone, Copy, PartialEq, Eq, Debug, Structural)]
pub struct ByteRange {
    /// First byte offset.
    pub offset: u64,
    /// Number of bytes, or `None` to read to the end.
    pub size: Option<u64>,
}

/// The absolute remote path for a caller path relative to `root`; `root` is
/// in normalized form and the result carries no leading slash.
pub open spec fn spec_abs_path(root: Seq<char>, rel: Seq<char>) -> Seq<char> {
    if root.len() <= 1 {
        rel
    } else {
        root.skip(1) + seq!['/'] + rel
    }
}

/// Shared immutable connection state: normalized root, filesystem name,
/// trimmed endpoint, the transport handle, and the credential loader and
/// signer collaborators. Nothing here is mutated after construction.
pub struct AzdlsCore {
    /// Normalized root; all operation paths are joined under it.
    pub root: String,
    /// Filesystem (container) name; non-empty.
    pub filesystem: String,
    /// Endpoint URL with no trailing slash.
    pub endpoint: String,
    /// The transport handle that will send the signed requests.
    pub client: reqwest::Client,
    /// The credential loader collaborator.
    pub loader: reqsign::AzureStorageLoader,
    /// The signer collaborator.
    pub signer: reqsign::AzureStorageSigner,
}

impl AzdlsCore {
    /// Well-formedness: the root is normalized and the filesystem name is
    /// non-empty.
    pub open spec fn wf(&self) -> bool {
        &&& is_normalized_root(self.root@)
        &&& self.filesystem@.len() > 0
    }

    /// Decide well-formedness at run time: exactly [`AzdlsCore::wf`].
    pub fn validate(&self) -> (r: bool)
        ensures
            r == self.wf(),
    {
        if self.filesystem.as_str().is_empty() {
            return false;
        }
        let chars = str_to_chars(self.root.as_str());
        let n = chars.len();
        if n == 0 {
            return false;
        }
        if chars[0] != '/' {
            return false;
        }
        if n > 1 && chars[n - 1] == '/' {
            return false;
        }
        let mut i: usize = 1;
        while i < n
            invariant
                n == chars@.len(),
                chars@ == self.root@,
                1 <= i <= n,
                forall|j: int| 0 < j < i ==> !(#[trigger] chars@[j] == '/' && chars@[j - 1] == '/'),
            decreases n - i,
        {
            if chars[i] == '/' && chars[i - 1] == '/' {
                return false;
            }
            i = i + 1;
        }
        true
    }

    /// The URL naming the object at `rel`, relative to the root.
    pub open spec fn spec_object_url(&self, rel: Seq<char>) -> Seq<char> {
        self.endpoint@ + seq!['/'] + self.filesystem@ + seq!['/'] + spec_abs_path(
            self.root@,
            rel,
        )
    }

    /// Build the object URL for `rel` with `extra` appended (a query suffix,
    /// or nothing).
    fn object_url(&self, rel: &str, extra: &str) -> (r: String)
        requires
            self.wf(),
        ensures
            r@ == self.spec_object_url(rel@) + extra@,
    {
        let mut out: Vec<char> = Vec::new();
        push_str_chars(&mut out, self.endpoint.as_str());
        out.push('/');
        push_str_chars(&mut out, self.filesystem.as_str());
        out.push('/');
        let rootlen = self.root.unicode_len();
        if rootlen > 1 {
            let rchars = str_to_chars(self.root.as_str());
            let tail = crate::text::chars_subvec(&rchars, 1, rchars.len());
            push_chars(&mut out, &tail);
            out.push('/');
            assert(tail@ =~= self.root@.skip(1));
        }
        push_str_chars(&mut out, rel);
        push_str_chars(&mut out, extra);
        proof {
            assert(out@ =~= self.spec_object_url(rel@) + extra@);
        }
        chars_to_string(&out)
    }

    /// The request that creates the directory at `path`: a put carrying the
    /// `directory` resource-type marker and an empty body.
    pub fn create_dir_request(&self, path: &str) -> (r: RequestPlan)
        requires
            self.wf(),
        ensures
            r.method == HttpMethod::Put,
            r.url@ == self.spec_object_url(path@) + "?resource=directory"@,
            r.rename_source is None,
            r.range is None,
            r.body@ == Seq::<u8>::empty(),
    {
        RequestPlan {
            method: HttpMethod::Put,
            url: self.object_url(path, "?resource=directory"),
            rename_source: None,
            range: None,
            body: Vec::new(),
        }
    }
}

/// The byte-range marker header for `r`: the start offset and, when a length
/// is given, the inclusive end offset.
pub open spec fn spec_range_header(r: ByteRange) -> Seq<char> {
    "bytes="@ + spec_dec(r.offset as nat) + seq!['-'] + (match r.size {
        Some(s) => spec_dec((r.offset + s - 1) as nat),
        None => Seq::<char>::empty(),
    })
}

/// A full range: no offset and no length restriction.
pub open spec fn spec_range_is_full(r: ByteRange) -> bool {
    r.offset == 0 && r.size is None
}

/// The rename-source marker for a rename from `from`: the absolute source
/// path, filesystem included.
pub open spec fn spec_rename_source(core: AzdlsCore, from: Seq<char>) -> Seq<char> {
    seq!['/'] + core.filesystem@ + seq!['/'] + spec_abs_path(core.root@, from)
}

/// The parent of the relative path `rel`, after trailing slashes are
/// dropped; `None` when the parent is the root itself.
pub open spec fn spec_parent_path(rel: Seq<char>) -> Option<Seq<char>> {
    let t = crate::text::trim_trailing(rel, '/');
    let k = crate::text::rfind_char(t, '/');
    if k == -1 {
        None
    } else {
        Some(t.subrange(0, k))
    }
}

impl AzdlsCore {
    /// Build the object URL for `rel` with nothing appended.
    pub(crate) fn object_url_plain(&self, rel: &str) -> (r: String)
        requires
            self.wf(),
        ensures
            r@ == self.spec_object_url(rel@),
    {
        proof {
            reveal_strlit("");
        }
        let r = self.object_url(rel, "");
        proof {
            assert(r@ =~= self.spec_object_url(rel@));
        }
        r
    }

    /// The metadata-only request for the object at `path`.
    pub fn get_properties_request(&self, path: &str) -> (r: RequestPlan)
        requires
            self.wf(),
        ensures
            r.method == HttpMethod::Head,
            r.url@ == self.spec_object_url(path@),
            r.rename_source is None,
            r.range is None,
            r.body@ == Seq::<u8>::empty(),
    {
        RequestPlan {
            method: HttpMethod::Head,
            url: self.object_url_plain(path),
            rename_source: None,
            range: None,
            body: Vec::new(),
        }
    }

    /// The read request for the object at `path`, restricted to `range` when
    /// the range is not the full object.
    pub fn read_request(&self, path: &str, range: ByteRange) -> (r: RequestPlan)
        requires
            self.wf(),
            range.size matches Some(s) ==> s >= 1 && range.offset + s - 1 <= u64::MAX,
        ensures
            r.method == HttpMethod::Get,
            r.url@ == self.spec_object_url(path@),
            r.rename_source is None,
            r.range.deep_view() == (if spec_range_is_full(range) {
                Option::<Seq<char>>::None
            } else {
                Some(spec_range_header(range))
            }),
            r.body@ == Seq::<u8>::empty(),
    {
        let header: Option<String> = if range.offset == 0 && range.size.is_none() {
            None
        } else {
            let mut out: Vec<char> = Vec::new();
            push_str_chars(&mut out, "bytes=");
            let off = u64_to_dec_chars(range.offset);
            push_chars(&mut out, &off);
            out.push('-');
            match range.size {
                Some(s) => {
                    let end = u64_to_dec_chars(range.offset + (s - 1));
                    push_chars(&mut out, &end);
                },
                None => {},
            }
            assert(out@ =~= spec_range_header(range));
            Some(chars_to_string(&out))
        };
        RequestPlan {
            method: HttpMethod::Get,
            url: self.object_url_plain(path),
            rename_source: None,
            range: header,
            body: Vec::new(),
        }
    }

    /// The deletion request for the object at `path`.
    pub fn delete_request(&self, path: &str) -> (r: RequestPlan)
        requires
            self.wf(),
        ensures
            r.method == HttpMethod::Delete,
            r.url@ == self.spec_object_url(path@),
            r.rename_source is None,
            r.range is None,
            r.body@ == Seq::<u8>::empty(),
    {
        RequestPlan {
            method: HttpMethod::Delete,
            url: self.object_url_plain(path),
            rename_source: None,
            range: None,
            body: Vec::new(),
        }
    }

    /// The rename request: it targets the destination URL and names the
    /// absolute source path in the rename-source marker.
    pub fn rename_request(&self, from: &str, to: &str) -> (r: RequestPlan)
        requires
            self.wf(),
        ensures
            r.method == HttpMethod::Put,
            r.url@ == self.spec_object_url(to@),
            r.rename_source.deep_view() == Some(spec_rename_source(*self, from@)),
            r.range is None,
            r.body@ == Seq::<u8>::empty(),
    {
        let mut src: Vec<char> = Vec::new();
        src.push('/');
        push_str_chars(&mut src, self.filesystem.as_str());
        src.push('/');
        let rootlen = self.root.unicode_len();
        if rootlen > 1 {
            let rchars = str_to_chars(self.root.as_str());
            let tail = crate::text::chars_subvec(&rchars, 1, rchars.len());
            push_chars(&mut src, &tail);
            src.push('/');
            assert(tail@ =~= self.root@.skip(1));
        }
        push_str_chars(&mut src, from);
        proof {
            assert(src@ =~= spec_rename_source(*self, from@));
        }
        RequestPlan {
            method: HttpMethod::Put,
            url: self.object_url_plain(to),
            rename_source: Some(chars_to_string(&src)),
            range: None,
            body: Vec::new(),
        }
    }

    /// The create-directory request for the parent of `path`, or `None` when
    /// the parent is the root, which always exists.
    pub fn ensure_parent_request(&self, path: &str) -> (r: Option<RequestPlan>)
        requires
            self.wf(),
        ensures
            r is Some <==> spec_parent_path(path@) is Some,
            r matches Some(req) ==> {
                &&& req.method == HttpMethod::Put
                &&& req.url@ == self.spec_object_url(spec_parent_path(path@)->Some_0)
                    + "?resource=directory"@
                &&& req.rename_source is None
                &&& req.range is None
                &&& req.body@ == Seq::<u8>::empty()
            },
    {
        let chars = str_to_chars(path);
        let n = chars.len();
        // drop trailing slashes
        let mut hi: usize = n;
        while hi > 0 && chars[hi - 1] == '/'
            invariant
                n == chars@.len(),
                hi <= n,
                forall|j: int| hi <= j < n ==> chars@[j] == '/',
            decreases hi,
        {
            hi = hi - 1;
        }
        let ghost t = crate::text::trim_trailing(path@, '/');
        proof {
            crate::text::lemma_trim_trailing_cut(path@, '/', hi as int);
            assert(t =~= chars@.subrange(0, hi as int));
        }
        // find the last slash of what remains
        let mut j: usize = hi;
        while j > 0 && chars[j - 1] != '/'
            invariant
                n == chars@.len(),
                j <= hi <= n,
                forall|i: int| j <= i < hi ==> chars@[i] != '/',
            decreases j,
        {
            j = j - 1;
        }
        proof {
            crate::text::lemma_rfind_char_props(t, '/');
            let k = crate::text::rfind_char(t, '/');
            if j == 0 {
                assert(k == -1) by {
                    if k != -1 {
                        assert(t[k] == chars@[k]);
                    }
                }
            } else {
                assert(chars@[j - 1] == '/');
                assert(t[j - 1] == '/');
                assert(k != -1);
                assert(k == j - 1) by {
                    if k < j - 1 {
                        assert(chars@[k] != '/');
                        assert(t[k] == chars@[k]);
                    }
                    if k > j - 1 {
                        assert(t[k] == chars@[k]);
                        assert(chars@[k] != '/');
                    }
                }
            }
        }
        if j == 0 {
            None
        } else {
            let parent = crate::text::chars_subvec(&chars, 0, j - 1);
            proof {
                let k = crate::text::rfind_char(t, '/');
                assert(t.subrange(0, k) =~= chars@.subrange(0, j - 1));
            }
            let parent_str = chars_to_string(&parent);
            Some(self.create_dir_request(parent_str.as_str()))
        }
    }
}

/// Append the characters of `s` to `out`.
pub fn push_str_chars(out: &mut Vec<char>, s: &str)
    ensures
        final(out)@ == old(out)@ + s@,
{
    let n = s.unicode_len();
    let mut i: usize = 0;
    while i < n
        invariant
            n == s@.len(),
            i <= n,
            out@ == old(out)@ + s@.take(i as int),
        decreases n - i,
    {
        out.push(s.get_char(i));
        assert(out@ =~= old(out)@ + s@.take(i + 1));
        i = i + 1;
    }
    assert(out@ =~= old(out)@ + s@);
}

/// Append the characters of `v` to `out`.
pub fn push_chars(out: &mut Vec<char>, v: &Vec<char>)
    ensures
        final(out)@ == old(out)@ + v@,
{
    let n = v.len();
    let mut i: usize = 0;
    while i < n
        invariant
            n == v@.len(),
            i <= n,
            out@ == old(out)@ + v@.take(i as int),
        decreases n - i,
    {
        out.push(v[i]);
        assert(out@ =~= old(out)@ + v@.take(i + 1));
        i = i + 1;
    }
    assert(out@ =~= old(out)@ + v@);
}

} // verus!
