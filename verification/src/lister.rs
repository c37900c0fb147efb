//! The single-page directory enumerator. Each invocation asks for one page,
//! capped at the configured limit, and forwards the continuation cursor
//! unchanged until the remote reports none remaining; enumeration then ends
//! and no further request is issued.
use std::sync::Arc;

use vstd::prelude::*;

use crate::request::{AzdlsCore, HttpMethod, RequestPlan, spec_abs_path};
use crate::text::{chars_to_string, spec_dec, str_to_chars, u64_to_dec_chars};

verus! {

/// Where an enumeration stands.
pub enum ListState {
    /// No page fetched yet.
    Start,
    /// The remote handed back this continuation cursor.
    Token(String),
    /// The remote reported none remaining.
    Finished,
}

/// The single-page enumerator bound to one core, one path and an optional
/// per-page result cap.
pub struct AzdlsLister {
    /// Shared connection state.
    pub core: Arc<AzdlsCore>,
    /// The directory being listed, relative to the root.
    pub path: String,
    /// The per-page result cap, when the caller set one.
    pub limit: Option<u64>,
    /// Where the enumeration stands.
    pub state: ListState,
}

/// The enumeration URL for one page: the filesystem listing, non-recursive,
/// naming the directory, the cap when one is set, and the continuation
/// cursor exactly as the remote handed it back.
pub open spec fn spec_list_url(
    core: AzdlsCore,
    path: Seq<char>,
    limit: Option<u64>,
    token: Option<Seq<char>>,
) -> Seq<char> {
    core.endpoint@ + seq!['/'] + core.filesystem@ + "?resource=filesystem&recursive=false&directory="@
        + spec_abs_path(core.root@, path) + (match limit {
        Some(n) => "&maxResults="@ + spec_dec(n as nat),
        None => Seq::<char>::empty(),
    }) + (match token {
        Some(t) => "&continuation="@ + t,
        None => Seq::<char>::empty(),
    })
}

impl AzdlsLister {
    /// A fresh enumerator that has fetched nothing yet.
    pub fn new(core: Arc<AzdlsCore>, path: String, limit: Option<u64>) -> (l: AzdlsLister)
        ensures
            l.core == core,
            l.path == path,
            l.limit == limit,
            l.state is Start,
    {
        AzdlsLister { core, path, limit, state: ListState::Start }
    }

    /// The request for the next page, or `None` once the remote has reported
    /// none remaining: the URL carries the cap and, after the first page, the
    /// continuation cursor unchanged.
    pub fn next_request(&self) -> (r: Option<RequestPlan>)
        requires
            self.core.wf(),
        ensures
            r is None <==> self.state is Finished,
            r matches Some(req) ==> {
                &&& req.method == HttpMethod::Get
                &&& req.url@ == spec_list_url(
                    *self.core,
                    self.path@,
                    self.limit,
                    match self.state {
                        ListState::Start => None,
                        ListState::Token(t) => Some(t@),
                        ListState::Finished => None,
                    },
                )
                &&& req.rename_source is None
                &&& req.range is None
                &&& req.body@ == Seq::<u8>::empty()
            },
    {
        let token: Option<&String> = match &self.state {
            ListState::Start => None,
            ListState::Token(t) => Some(t),
            ListState::Finished => {
                return None;
            },
        };
        let mut url: Vec<char> = Vec::new();
        crate::request::push_str_chars(&mut url, self.core.endpoint.as_str());
        url.push('/');
        crate::request::push_str_chars(&mut url, self.core.filesystem.as_str());
        crate::request::push_str_chars(&mut url, "?resource=filesystem&recursive=false&directory=");
        let rootlen = self.core.root.unicode_len();
        if rootlen > 1 {
            let rchars = str_to_chars(self.core.root.as_str());
            let tail = crate::text::chars_subvec(&rchars, 1, rchars.len());
            crate::request::push_chars(&mut url, &tail);
            url.push('/');
            assert(tail@ =~= self.core.root@.skip(1));
        }
        crate::request::push_str_chars(&mut url, self.path.as_str());
        match self.limit {
            Some(n) => {
                crate::request::push_str_chars(&mut url, "&maxResults=");
                let digits = u64_to_dec_chars(n);
                crate::request::push_chars(&mut url, &digits);
            },
            None => {},
        }
        match token {
            Some(t) => {
                crate::request::push_str_chars(&mut url, "&continuation=");
                crate::request::push_str_chars(&mut url, t.as_str());
            },
            None => {},
        }
        proof {
            assert(url@ =~= spec_list_url(
                *self.core,
                self.path@,
                self.limit,
                match self.state {
                    ListState::Start => None,
                    ListState::Token(t) => Some(t@),
                    ListState::Finished => None,
                },
            ));
        }
        Some(
            RequestPlan {
                method: HttpMethod::Get,
                url: chars_to_string(&url),
                rename_source: None,
                range: None,
                body: Vec::new(),
            },
        )
    }

    /// Record what one page's response reported: a non-empty continuation
    /// cursor is kept, unchanged, for the next request; an absent or empty
    /// one ends the enumeration.
    pub fn record_continuation(&mut self, token: Option<String>)
        ensures
            final(self).core == old(self).core,
            final(self).path == old(self).path,
            final(self).limit == old(self).limit,
            final(self).state == (match token {
                Some(t) => if t@.len() > 0 {
                    ListState::Token(t)
                } else {
                    ListState::Finished
                },
                None => ListState::Finished,
            }),
    {
        match token {
            Some(t) => {
                if t.as_str().is_empty() {
                    self.state = ListState::Finished;
                } else {
                    self.state = ListState::Token(t);
                }
            },
            None => {
                self.state = ListState::Finished;
            },
        }
    }
}

} // verus!
