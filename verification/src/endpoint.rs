//! Endpoint and root handling: inferring the storage account name from an
//! endpoint URL, and normalizing the configured root path.
use vstd::prelude::*;

use crate::text::{
    chars_eq, chars_eq_ignore_ascii_case, chars_subvec, chars_to_string, eq_ignore_ascii_case,
    find_char, str_to_chars, trim_trailing,
};

verus! {

/// `s` with a leading `http://` or `https://` scheme removed.
pub open spec fn spec_strip_scheme(s: Seq<char>) -> Seq<char> {
    if s.len() >= 7 && s.subrange(0, 7) == "http://"@ {
        s.skip(7)
    } else if s.len() >= 8 && s.subrange(0, 8) == "https://"@ {
        s.skip(8)
    } else {
        s
    }
}

/// Whether `suffix` matches one of the known regional endpoint suffixes,
/// case-insensitively.
pub open spec fn is_known_endpoint_suffix(suffix: Seq<char>) -> bool {
    ||| eq_ignore_ascii_case(suffix, "dfs.core.windows.net"@)
    ||| eq_ignore_ascii_case(suffix, "dfs.core.usgovcloudapi.net"@)
    ||| eq_ignore_ascii_case(suffix, "dfs.core.chinacloudapi.cn"@)
}

/// The account name inferred from an endpoint URL: after the scheme is
/// stripped, the host is split on its first dot; the leading label is the
/// account name exactly when the remainder, with trailing slashes removed, is
/// a known regional endpoint suffix.
pub open spec fn spec_infer_storage_name(s: Seq<char>) -> Option<Seq<char>> {
    let e = spec_strip_scheme(s);
    let k = find_char(e, '.');
    if k == -1 {
        None
    } else {
        let suffix = trim_trailing(e.skip(k + 1), '/');
        if is_known_endpoint_suffix(suffix) {
            Some(e.subrange(0, k))
        } else {
            None
        }
    }
}

/// Infer the storage account name from the endpoint, when the endpoint lies
/// under a known regional suffix.
#[verifier::rlimit(60)]
pub fn infer_storage_name_from_endpoint(endpoint: &str) -> (r: Option<String>)
    ensures
        r.deep_view() == spec_infer_storage_name(endpoint@),
{
    let chars = str_to_chars(endpoint);
    let n = chars.len();
    let start: usize = if n >= 7 && chars_eq(&chars, 0, 7, "http://") {
        7
    } else if n >= 8 && chars_eq(&chars, 0, 8, "https://") {
        8
    } else {
        0
    };
    let ghost e = spec_strip_scheme(endpoint@);
    proof {
        assert(chars@.subrange(0, chars@.len() as int) =~= chars@);
        assert(e =~= chars@.skip(start as int));
    }
    // find the first dot of the remaining host
    let mut i: usize = start;
    while i < n && chars[i] != '.'
        invariant
            n == chars@.len(),
            start <= i <= n,
            forall|j: int| start <= j < i ==> chars@[j] != '.',
        decreases n - i,
    {
        i = i + 1;
    }
    let dot: Option<usize> = if i < n {
        Some(i)
    } else {
        None
    };
    proof {
        crate::text::lemma_find_char_props(e, '.');
        assert(forall|j: int| 0 <= j < e.len() ==> e[j] == chars@[start + j]);
    }
    match dot {
        None => {
            assert(find_char(e, '.') == -1) by {
                if find_char(e, '.') != -1 {
                    assert(chars@[start + find_char(e, '.')] == '.');
                }
            }
            None
        },
        Some(d) => {
            let ghost k = find_char(e, '.');
            proof {
                assert(e[d - start] == '.');
                assert(k != -1) by {
                    if k == -1 {
                        assert(e[d - start] != '.');
                    }
                }
                assert(k == d - start) by {
                    if k < d - start {
                        assert(chars@[start + k] != '.');
                        assert(e[k] == '.');
                    }
                    if k > d - start {
                        assert(e[d - start] != '.');
                    }
                }
            }
            // trim trailing slashes from the suffix after the dot
            let lo: usize = d + 1;
            let mut hi: usize = n;
            while hi > lo && chars[hi - 1] == '/'
                invariant
                    n == chars@.len(),
                    lo <= hi <= n,
                    forall|j: int| hi <= j < n ==> chars@[j] == '/',
                decreases hi,
            {
                hi = hi - 1;
            }
            let ghost full = e.skip(k + 1);
            let ghost suf = trim_trailing(full, '/');
            proof {
                assert(full =~= chars@.subrange(lo as int, n as int));
                assert(forall|j: int| hi - lo <= j < full.len() ==> full[j] == '/') by {
                    assert(forall|j: int|
                        hi - lo <= j < full.len() ==> full[j] == chars@[lo + j] && chars@[lo + j]
                            == '/');
                }
                if hi - lo > 0 {
                    assert(full[hi - lo - 1] == chars@[hi - 1]);
                }
                crate::text::lemma_trim_trailing_cut(full, '/', hi - lo);
                assert(suf =~= chars@.subrange(lo as int, hi as int));
            }
            let known = chars_eq_ignore_ascii_case(&chars, lo, hi, "dfs.core.windows.net")
                || chars_eq_ignore_ascii_case(&chars, lo, hi, "dfs.core.usgovcloudapi.net")
                || chars_eq_ignore_ascii_case(&chars, lo, hi, "dfs.core.chinacloudapi.cn");
            if known {
                let name = chars_subvec(&chars, start, d);
                proof {
                    assert(e.subrange(0, k) =~= chars@.subrange(start as int, d as int));
                }
                Some(chars_to_string(&name))
            } else {
                None
            }
        },
    }
}

/// One step of slash collapsing: append `c` unless it is a slash that would
/// double a slash already at the end.
pub open spec fn collapse_step(acc: Seq<char>, c: char) -> Seq<char> {
    if c == '/' && acc.len() > 0 && acc.last() == '/' {
        acc
    } else {
        acc.push(c)
    }
}

/// The first `i` characters of `s` collapsed onto a leading slash.
pub open spec fn collapse_prefix(s: Seq<char>, i: int) -> Seq<char>
    decreases i,
{
    if i <= 0 {
        seq!['/']
    } else {
        collapse_step(collapse_prefix(s, i - 1), s[i - 1])
    }
}

/// The normalized form of a root path: a leading slash, runs of slashes
/// collapsed, and no trailing slash except for the root itself.
pub open spec fn spec_normalize_root(s: Seq<char>) -> Seq<char> {
    let l = collapse_prefix(s, s.len() as int);
    if l.len() > 1 && l.last() == '/' {
        l.drop_last()
    } else {
        l
    }
}

/// A root in normalized form: non-empty, leading slash, no doubled slash, and
/// no trailing slash unless the root is `/` itself.
pub open spec fn is_normalized_root(s: Seq<char>) -> bool {
    &&& s.len() > 0
    &&& s[0] == '/'
    &&& forall|i: int| 0 < i < s.len() ==> !(#[trigger] s[i] == '/' && s[i - 1] == '/')
    &&& s.len() > 1 ==> s.last() != '/'
}

proof fn lemma_collapse_prefix_props(s: Seq<char>, i: int)
    requires
        0 <= i <= s.len(),
    ensures
        collapse_prefix(s, i).len() > 0,
        collapse_prefix(s, i)[0] == '/',
        forall|j: int|
            0 < j < collapse_prefix(s, i).len() ==> !(#[trigger] collapse_prefix(s, i)[j] == '/'
                && collapse_prefix(s, i)[j - 1] == '/'),
    decreases i,
{
    if i > 0 {
        lemma_collapse_prefix_props(s, i - 1);
    }
}

/// Normalize a root path: collapse slashes, force a leading slash, and drop a
/// trailing slash except for the root itself.
pub fn normalize_root(root: &str) -> (r: String)
    ensures
        r@ == spec_normalize_root(root@),
        is_normalized_root(r@),
{
    let chars = str_to_chars(root);
    let n = chars.len();
    let mut out: Vec<char> = Vec::new();
    out.push('/');
    assert(out@ =~= collapse_prefix(root@, 0));
    let mut i: usize = 0;
    while i < n
        invariant
            n == chars@.len(),
            chars@ == root@,
            i <= n,
            out@ == collapse_prefix(root@, i as int),
            out@.len() >= 1,
        decreases n - i,
    {
        let c = chars[i];
        let last = out[out.len() - 1];
        if !(c == '/' && last == '/') {
            out.push(c);
        }
        i = i + 1;
    }
    proof {
        lemma_collapse_prefix_props(root@, n as int);
    }
    if out.len() > 1 && out[out.len() - 1] == '/' {
        let _ = out.pop();
        proof {
            let l = collapse_prefix(root@, n as int);
            assert(out@ =~= l.drop_last());
            assert(out@.len() > 1 ==> out@.last() != '/') by {
                if out@.len() > 1 && out@.last() == '/' {
                    assert(l[out@.len() - 1] == '/' && l[out@.len() - 2] == '/');
                }
            }
        }
    }
    chars_to_string(&out)
}

} // verus!
