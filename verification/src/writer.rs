//! The two streaming-upload strategies behind one caller-facing sink: an
//! append writer that uploads each chunk at a tracked offset and commits
//! with a final flush, and a one-shot writer that buffers the full payload
//! and issues exactly one request on completion.
use std::sync::Arc;

use vstd::prelude::*;

use crate::request::{AzdlsCore, HttpMethod, RequestPlan};
use crate::text::{chars_to_string, spec_dec, str_to_chars, u64_to_dec_chars};

verus! {

/// Relies on `Arc::clone`: the clone is the same shared value.
#[verifier::external_body]
pub fn arc_clone<T>(v: &Arc<T>) -> (r: Arc<T>)
    ensures
        r == *v,
{
    Arc::clone(v)
}

/// Buffers the full payload and issues exactly one upload request on
/// completion.
pub struct OneShotWriter {
    /// Shared connection state.
    pub core: Arc<AzdlsCore>,
    /// The path being written, relative to the root.
    pub path: String,
    /// Everything written so far.
    pub buf: Vec<u8>,
}

impl OneShotWriter {
    /// A fresh writer for `path` with an empty buffer.
    pub fn new(core: Arc<AzdlsCore>, path: String) -> (w: OneShotWriter)
        ensures
            w.core == core,
            w.path == path,
            w.buf@ == Seq::<u8>::empty(),
    {
        OneShotWriter { core, path, buf: Vec::new() }
    }

    /// Append one chunk to the buffered payload; nothing is sent yet.
    pub fn write(&mut self, chunk: &Vec<u8>)
        requires
            old(self).buf@.len() + chunk@.len() <= usize::MAX,
        ensures
            final(self).buf@ == old(self).buf@ + chunk@,
            final(self).core == old(self).core,
            final(self).path == old(self).path,
    {
        let n = chunk.len();
        let mut i: usize = 0;
        while i < n
            invariant
                n == chunk@.len(),
                i <= n,
                self.buf@ == old(self).buf@ + chunk@.take(i as int),
                self.buf@.len() == old(self).buf@.len() + i,
                old(self).buf@.len() + chunk@.len() <= usize::MAX,
                self.core == old(self).core,
                self.path == old(self).path,
            decreases n - i,
        {
            self.buf.push(chunk[i]);
            assert(self.buf@ =~= old(self).buf@ + chunk@.take(i + 1));
            i = i + 1;
        }
        assert(self.buf@ =~= old(self).buf@ + chunk@);
    }

    /// The single upload request carrying the whole buffered payload.
    pub fn close(self) -> (r: RequestPlan)
        requires
            self.core.wf(),
        ensures
            r.method == HttpMethod::Put,
            r.url@ == self.core.spec_object_url(self.path@),
            r.rename_source is None,
            r.range is None,
            r.body@ == self.buf@,
    {
        RequestPlan {
            method: HttpMethod::Put,
            url: self.core.object_url_plain(self.path.as_str()),
            rename_source: None,
            range: None,
            body: self.buf,
        }
    }
}

/// Uploads each chunk at a tracked offset; a final flush makes the appended
/// bytes visible.
pub struct AppendWriter {
    /// Shared connection state.
    pub core: Arc<AzdlsCore>,
    /// The path being written, relative to the root.
    pub path: String,
    /// How many bytes have been appended so far.
    pub offset: u64,
}

impl AppendWriter {
    /// A fresh writer for `path` positioned at offset zero.
    pub fn new(core: Arc<AzdlsCore>, path: String) -> (w: AppendWriter)
        ensures
            w.core == core,
            w.path == path,
            w.offset == 0,
    {
        AppendWriter { core, path, offset: 0 }
    }

    /// The request appending `chunk` at the current offset; the offset
    /// advances by the chunk's length.
    pub fn append_request(&mut self, chunk: &Vec<u8>) -> (r: RequestPlan)
        requires
            old(self).core.wf(),
            old(self).offset + chunk@.len() <= u64::MAX,
        ensures
            final(self).offset == old(self).offset + chunk@.len(),
            final(self).core == old(self).core,
            final(self).path == old(self).path,
            r.method == HttpMethod::Patch,
            r.url@ == old(self).core.spec_object_url(old(self).path@)
                + "?action=append&position="@ + spec_dec(old(self).offset as nat),
            r.rename_source is None,
            r.range is None,
            r.body@ == chunk@,
    {
        let mut url_chars = str_to_chars(self.core.object_url_plain(self.path.as_str()).as_str());
        crate::request::push_str_chars(&mut url_chars, "?action=append&position=");
        let digits = u64_to_dec_chars(self.offset);
        crate::request::push_chars(&mut url_chars, &digits);
        let r = RequestPlan {
            method: HttpMethod::Patch,
            url: chars_to_string(&url_chars),
            rename_source: None,
            range: None,
            body: clone_bytes(chunk),
        };
        self.offset = self.offset + (chunk.len() as u64);
        r
    }

    /// The request that commits everything appended so far.
    pub fn flush_request(&self) -> (r: RequestPlan)
        requires
            self.core.wf(),
        ensures
            r.method == HttpMethod::Patch,
            r.url@ == self.core.spec_object_url(self.path@) + "?action=flush&position="@
                + spec_dec(self.offset as nat),
            r.rename_source is None,
            r.range is None,
            r.body@ == Seq::<u8>::empty(),
    {
        let mut url_chars = str_to_chars(self.core.object_url_plain(self.path.as_str()).as_str());
        crate::request::push_str_chars(&mut url_chars, "?action=flush&position=");
        let digits = u64_to_dec_chars(self.offset);
        crate::request::push_chars(&mut url_chars, &digits);
        RequestPlan {
            method: HttpMethod::Patch,
            url: chars_to_string(&url_chars),
            rename_source: None,
            range: None,
            body: Vec::new(),
        }
    }
}

/// The upload strategy chosen for one write call.
pub enum AzdlsWriters {
    /// The one-shot variant.
    One(OneShotWriter),
    /// The append-capable variant.
    Two(AppendWriter),
}

/// A fresh copy of a byte vector.
pub fn clone_bytes(v: &Vec<u8>) -> (r: Vec<u8>)
    ensures
        r@ == v@,
{
    let n = v.len();
    let mut r: Vec<u8> = Vec::new();
    let mut i: usize = 0;
    while i < n
        invariant
            n == v@.len(),
            i <= n,
            r@ == v@.take(i as int),
        decreases n - i,
    {
        r.push(v[i]);
        assert(r@ =~= v@.take(i + 1));
        i = i + 1;
    }
    assert(r@ =~= v@);
    r
}

} // verus!
