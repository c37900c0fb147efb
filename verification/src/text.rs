//! Character-sequence utilities shared by the endpoint, path and request
//! logic: case-insensitive comparison, searching, trimming, and decimal
//! formatting of integers.
use vstd::prelude::*;

verus! {

/// The character `c` with an ASCII upper-case letter folded to lower case.
pub open spec fn spec_lower_char(c: char) -> char {
    if c == 'A' {
        'a'
    } else if c == 'B' {
        'b'
    } else if c == 'C' {
        'c'
    } else if c == 'D' {
        'd'
    } else if c == 'E' {
        'e'
    } else if c == 'F' {
        'f'
    } else if c == 'G' {
        'g'
    } else if c == 'H' {
        'h'
    } else if c == 'I' {
        'i'
    } else if c == 'J' {
        'j'
    } else if c == 'K' {
        'k'
    } else if c == 'L' {
        'l'
    } else if c == 'M' {
        'm'
    } else if c == 'N' {
        'n'
    } else if c == 'O' {
        'o'
    } else if c == 'P' {
        'p'
    } else if c == 'Q' {
        'q'
    } else if c == 'R' {
        'r'
    } else if c == 'S' {
        's'
    } else if c == 'T' {
        't'
    } else if c == 'U' {
        'u'
    } else if c == 'V' {
        'v'
    } else if c == 'W' {
        'w'
    } else if c == 'X' {
        'x'
    } else if c == 'Y' {
        'y'
    } else if c == 'Z' {
        'z'
    } else {
        c
    }
}

/// `a` and `b` are equal up to ASCII case.
pub open spec fn eq_ignore_ascii_case(a: Seq<char>, b: Seq<char>) -> bool {
    a.len() == b.len() && forall|i: int|
        0 <= i < a.len() ==> spec_lower_char(a[i]) == spec_lower_char(b[i])
}

/// Index of the first occurrence of `c` in `s`, or -1 if `c` does not occur.
pub open spec fn find_char(s: Seq<char>, c: char) -> int
    decreases s.len(),
{
    if s.len() == 0 {
        -1
    } else if s[0] == c {
        0
    } else {
        let r = find_char(s.skip(1), c);
        if r == -1 {
            -1
        } else {
            r + 1
        }
    }
}

/// `s` with every trailing occurrence of `c` removed.
pub open spec fn trim_trailing(s: Seq<char>, c: char) -> Seq<char>
    decreases s.len(),
{
    if s.len() > 0 && s.last() == c {
        trim_trailing(s.drop_last(), c)
    } else {
        s
    }
}

pub proof fn lemma_find_char_props(s: Seq<char>, c: char)
    ensures
        find_char(s, c) == -1 ==> forall|i: int| 0 <= i < s.len() ==> s[i] != c,
        find_char(s, c) != -1 ==> {
            &&& 0 <= find_char(s, c) < s.len()
            &&& s[find_char(s, c)] == c
            &&& forall|i: int| 0 <= i < find_char(s, c) ==> s[i] != c
        },
    decreases s.len(),
{
    if s.len() != 0 && s[0] != c {
        lemma_find_char_props(s.skip(1), c);
        if find_char(s.skip(1), c) != -1 {
            assert(s.skip(1)[find_char(s, c) - 1] == c);
            assert forall|i: int| 0 <= i < find_char(s, c) implies s[i] != c by {
                if i > 0 {
                    assert(s.skip(1)[i - 1] != c);
                }
            }
        } else {
            assert forall|i: int| 0 <= i < s.len() implies s[i] != c by {
                if i > 0 {
                    assert(s.skip(1)[i - 1] != c);
                }
            }
        }
    }
}

pub proof fn lemma_trim_trailing_props(s: Seq<char>, c: char)
    ensures
        trim_trailing(s, c).len() <= s.len(),
        trim_trailing(s, c) == s.take(trim_trailing(s, c).len() as int),
        forall|i: int|
            trim_trailing(s, c).len() <= i < s.len() ==> s[i] == c,
        trim_trailing(s, c).len() > 0 ==> trim_trailing(s, c).last() != c,
    decreases s.len(),
{
    if s.len() > 0 && s.last() == c {
        lemma_trim_trailing_props(s.drop_last(), c);
        assert(s.drop_last() == s.take(s.len() - 1));
        assert(trim_trailing(s, c) == s.drop_last().take(trim_trailing(s, c).len() as int));
        assert(s.drop_last().take(trim_trailing(s, c).len() as int)
            =~= s.take(trim_trailing(s, c).len() as int));
        assert forall|i: int| trim_trailing(s, c).len() <= i < s.len() implies s[i] == c by {
            if i < s.len() - 1 {
                assert(s.drop_last()[i] == c);
            }
        }
    } else {
        assert(trim_trailing(s, c) =~= s.take(s.len() as int));
    }
}

/// A cut point `h` with only `c` from `h` on, and not `c` just before it, is
/// exactly where trimming trailing `c` cuts.
pub proof fn lemma_trim_trailing_cut(s: Seq<char>, c: char, h: int)
    requires
        0 <= h <= s.len(),
        forall|i: int| h <= i < s.len() ==> s[i] == c,
        h > 0 ==> s[h - 1] != c,
    ensures
        trim_trailing(s, c) == s.take(h),
{
    lemma_trim_trailing_props(s, c);
    let t = trim_trailing(s, c);
    let m = t.len() as int;
    if m < h {
        assert(s[h - 1] == c);
    }
    if h < m {
        assert(t[m - 1] == s[m - 1]);
        assert(s[m - 1] == c);
        assert(t.last() != c);
    }
    assert(m == h);
}

/// Index of the last occurrence of `c` in `s`, or -1 if `c` does not occur.
pub open spec fn rfind_char(s: Seq<char>, c: char) -> int
    decreases s.len(),
{
    if s.len() == 0 {
        -1
    } else if s.last() == c {
        s.len() - 1
    } else {
        rfind_char(s.drop_last(), c)
    }
}

pub proof fn lemma_rfind_char_props(s: Seq<char>, c: char)
    ensures
        rfind_char(s, c) == -1 ==> forall|i: int| 0 <= i < s.len() ==> s[i] != c,
        rfind_char(s, c) != -1 ==> {
            &&& 0 <= rfind_char(s, c) < s.len()
            &&& s[rfind_char(s, c)] == c
            &&& forall|i: int| rfind_char(s, c) < i < s.len() ==> s[i] != c
        },
    decreases s.len(),
{
    if s.len() != 0 && s.last() != c {
        lemma_rfind_char_props(s.drop_last(), c);
        assert forall|i: int| 0 <= i < s.len() && i != s.len() - 1 implies s[i] == s.drop_last()[i] by {}
    }
}

/// The characters of `s`, in order, as a vector.
pub fn str_to_chars(s: &str) -> (v: Vec<char>)
    ensures
        v@ == s@,
{
    let n = s.unicode_len();
    let mut v: Vec<char> = Vec::new();
    let mut i: usize = 0;
    while i < n
        invariant
            n == s@.len(),
            i <= n,
            v@ == s@.take(i as int),
        decreases n - i,
    {
        v.push(s.get_char(i));
        assert(v@ =~= s@.take(i + 1));
        i = i + 1;
    }
    assert(v@ =~= s@);
    v
}

/// Relies on `String: FromIterator<char>`: collecting characters yields the
/// string of exactly those characters, in order.
#[verifier::external_body]
pub fn chars_to_string(v: &Vec<char>) -> (s: String)
    ensures
        s@ == v@,
{
    v.iter().collect()
}

/// The character `c` with an ASCII upper-case letter folded to lower case;
/// agrees with [`spec_lower_char`].
pub fn lower_char(c: char) -> (r: char)
    ensures
        r == spec_lower_char(c),
{
    match c {
        'A' => 'a',
        'B' => 'b',
        'C' => 'c',
        'D' => 'd',
        'E' => 'e',
        'F' => 'f',
        'G' => 'g',
        'H' => 'h',
        'I' => 'i',
        'J' => 'j',
        'K' => 'k',
        'L' => 'l',
        'M' => 'm',
        'N' => 'n',
        'O' => 'o',
        'P' => 'p',
        'Q' => 'q',
        'R' => 'r',
        'S' => 's',
        'T' => 't',
        'U' => 'u',
        'V' => 'v',
        'W' => 'w',
        'X' => 'x',
        'Y' => 'y',
        'Z' => 'z',
        _ => c,
    }
}

/// Exact character-for-character equality of two string slices.
pub fn str_eq(a: &str, b: &str) -> (r: bool)
    ensures
        r == (a@ == b@),
{
    let na = a.unicode_len();
    let nb = b.unicode_len();
    if na != nb {
        assert(a@ != b@);
        return false;
    }
    let mut i: usize = 0;
    while i < na
        invariant
            na == a@.len(),
            na == b@.len(),
            i <= na,
            forall|j: int| 0 <= j < i ==> a@[j] == b@[j],
        decreases na - i,
    {
        if a.get_char(i) != b.get_char(i) {
            return false;
        }
        i = i + 1;
    }
    assert(a@ =~= b@);
    true
}

/// Equality of two string slices up to ASCII case.
pub fn str_eq_ignore_ascii_case(a: &str, b: &str) -> (r: bool)
    ensures
        r == eq_ignore_ascii_case(a@, b@),
{
    let na = a.unicode_len();
    let nb = b.unicode_len();
    if na != nb {
        return false;
    }
    let mut i: usize = 0;
    while i < na
        invariant
            na == a@.len(),
            na == b@.len(),
            i <= na,
            forall|j: int| 0 <= j < i ==> spec_lower_char(a@[j]) == spec_lower_char(b@[j]),
        decreases na - i,
    {
        let la = lower_char(a.get_char(i));
        let lb = lower_char(b.get_char(i));
        if la != lb {
            return false;
        }
        i = i + 1;
    }
    true
}

/// Equality of a slice of a character vector with a string slice, up to ASCII
/// case.
pub fn chars_eq_ignore_ascii_case(a: &Vec<char>, lo: usize, hi: usize, b: &str) -> (r: bool)
    requires
        lo <= hi <= a@.len(),
    ensures
        r == eq_ignore_ascii_case(a@.subrange(lo as int, hi as int), b@),
{
    let nb = b.unicode_len();
    if hi - lo != nb {
        return false;
    }
    let mut i: usize = 0;
    while i < nb
        invariant
            nb == b@.len(),
            lo <= hi <= a@.len(),
            hi - lo == nb,
            i <= nb,
            forall|j: int|
                0 <= j < i ==> spec_lower_char(a@.subrange(lo as int, hi as int)[j])
                    == spec_lower_char(b@[j]),
        decreases nb - i,
    {
        assert(a@.subrange(lo as int, hi as int)[i as int] == a@[lo + i]);
        let la = lower_char(a[lo + i]);
        let lb = lower_char(b.get_char(i));
        if la != lb {
            return false;
        }
        i = i + 1;
    }
    true
}

/// Exact equality of a slice of a character vector with a string slice.
pub fn chars_eq(a: &Vec<char>, lo: usize, hi: usize, b: &str) -> (r: bool)
    requires
        lo <= hi <= a@.len(),
    ensures
        r == (a@.subrange(lo as int, hi as int) == b@),
{
    let nb = b.unicode_len();
    if hi - lo != nb {
        return false;
    }
    let mut i: usize = 0;
    while i < nb
        invariant
            nb == b@.len(),
            lo <= hi <= a@.len(),
            hi - lo == nb,
            i <= nb,
            forall|j: int| 0 <= j < i ==> a@.subrange(lo as int, hi as int)[j] == b@[j],
        decreases nb - i,
    {
        assert(a@.subrange(lo as int, hi as int)[i as int] == a@[lo + i]);
        if a[lo + i] != b.get_char(i) {
            return false;
        }
        i = i + 1;
    }
    assert(a@.subrange(lo as int, hi as int) =~= b@);
    true
}

/// The characters of `a` between `lo` and `hi`, as a fresh vector.
pub fn chars_subvec(a: &Vec<char>, lo: usize, hi: usize) -> (v: Vec<char>)
    requires
        lo <= hi <= a@.len(),
    ensures
        v@ == a@.subrange(lo as int, hi as int),
{
    let mut v: Vec<char> = Vec::new();
    let mut i: usize = lo;
    while i < hi
        invariant
            lo <= i <= hi <= a@.len(),
            v@ == a@.subrange(lo as int, i as int),
        decreases hi - i,
    {
        v.push(a[i]);
        assert(v@ =~= a@.subrange(lo as int, i + 1));
        i = i + 1;
    }
    v
}

/// The character for one decimal digit.
pub open spec fn dec_digit(d: int) -> char {
    if d == 0 {
        '0'
    } else if d == 1 {
        '1'
    } else if d == 2 {
        '2'
    } else if d == 3 {
        '3'
    } else if d == 4 {
        '4'
    } else if d == 5 {
        '5'
    } else if d == 6 {
        '6'
    } else if d == 7 {
        '7'
    } else if d == 8 {
        '8'
    } else {
        '9'
    }
}

/// The decimal representation of `n`, without leading zeros (a single zero for
/// zero itself).
pub open spec fn spec_dec(n: nat) -> Seq<char>
    decreases n,
{
    if n < 10 {
        seq![dec_digit(n as int)]
    } else {
        spec_dec(n / 10).push(dec_digit((n % 10) as int))
    }
}

fn dec_digit_char(d: u64) -> (c: char)
    requires
        d < 10,
    ensures
        c == dec_digit(d as int),
{
    if d == 0 {
        '0'
    } else if d == 1 {
        '1'
    } else if d == 2 {
        '2'
    } else if d == 3 {
        '3'
    } else if d == 4 {
        '4'
    } else if d == 5 {
        '5'
    } else if d == 6 {
        '6'
    } else if d == 7 {
        '7'
    } else if d == 8 {
        '8'
    } else {
        '9'
    }
}

/// The decimal representation of `n` as characters.
pub fn u64_to_dec_chars(n: u64) -> (v: Vec<char>)
    ensures
        v@ == spec_dec(n as nat),
    decreases n,
{
    if n < 10 {
        let mut v: Vec<char> = Vec::new();
        v.push(dec_digit_char(n));
        assert(v@ =~= spec_dec(n as nat));
        v
    } else {
        let mut v = u64_to_dec_chars(n / 10);
        v.push(dec_digit_char(n % 10));
        v
    }
}

/// A decimal digit character.
pub open spec fn is_dec_digit(c: char) -> bool {
    48 <= c as int <= 57
}

/// The numeric value of a decimal digit character.
pub open spec fn dec_val(c: char) -> int {
    c as int - 48
}

/// The numeric value of a sequence of decimal digit characters.
pub open spec fn dec_value(s: Seq<char>) -> int
    decreases s.len(),
{
    if s.len() == 0 {
        0
    } else {
        dec_value(s.drop_last()) * 10 + dec_val(s.last())
    }
}

/// What parsing a decimal `u64` from `s` yields: a value exactly when `s` is a
/// non-empty run of digits whose value fits in a `u64`.
pub open spec fn spec_parse_u64(s: Seq<char>) -> Option<u64> {
    if s.len() > 0 && (forall|i: int| 0 <= i < s.len() ==> is_dec_digit(s[i])) && dec_value(s)
        <= u64::MAX {
        Some(dec_value(s) as u64)
    } else {
        None
    }
}

proof fn lemma_dec_value_nonneg(s: Seq<char>)
    requires
        forall|i: int| 0 <= i < s.len() ==> is_dec_digit(s[i]),
    ensures
        dec_value(s) >= 0,
    decreases s.len(),
{
    if s.len() > 0 {
        lemma_dec_value_nonneg(s.drop_last());
    }
}

proof fn lemma_dec_value_grows(s: Seq<char>, i: int)
    requires
        forall|j: int| 0 <= j < s.len() ==> is_dec_digit(s[j]),
        0 <= i <= s.len(),
    ensures
        dec_value(s) >= dec_value(s.take(i)),
    decreases s.len() - i,
{
    if i < s.len() {
        lemma_dec_value_grows(s, i + 1);
        lemma_dec_value_nonneg(s.take(i));
        assert(s.take(i + 1).drop_last() =~= s.take(i));
        assert(dec_value(s.take(i + 1)) == dec_value(s.take(i)) * 10 + dec_val(s[i]));
    } else {
        assert(s.take(i) =~= s);
    }
}

fn digit_value(c: char) -> (d: u64)
    requires
        is_dec_digit(c),
    ensures
        d == dec_val(c),
        d < 10,
{
    match c {
        '0' => 0,
        '1' => 1,
        '2' => 2,
        '3' => 3,
        '4' => 4,
        '5' => 5,
        '6' => 6,
        '7' => 7,
        '8' => 8,
        _ => 9,
    }
}

/// Parse a decimal `u64` from characters; `None` on an empty input, a
/// non-digit, or overflow.
pub fn parse_u64_chars(s: &Vec<char>) -> (r: Option<u64>)
    ensures
        r == spec_parse_u64(s@),
{
    let n = s.len();
    if n == 0 {
        return None;
    }
    let mut acc: u64 = 0;
    let mut i: usize = 0;
    while i < n
        invariant
            n == s@.len(),
            0 < n,
            i <= n,
            forall|j: int| 0 <= j < i ==> is_dec_digit(s@[j]),
            acc == dec_value(s@.take(i as int)),
        decreases n - i,
    {
        let ch: char = s[i];
        if !('0' <= ch && ch <= '9') {
            assert(!is_dec_digit(s@[i as int]));
            return None;
        }
        let d: u64 = digit_value(ch);
        proof {
            assert(s@.take(i + 1).drop_last() =~= s@.take(i as int));
        }
        if acc > (u64::MAX - d) / 10 {
            proof {
                if forall|j: int| 0 <= j < s@.len() ==> is_dec_digit(s@[j]) {
                    lemma_dec_value_grows(s@, i + 1);
                    assert(s@.take(i + 1).last() == s@[i as int]);
                    assert(dec_value(s@.take(i + 1)) == acc * 10 + d);
                    assert(10 * ((u64::MAX - d) / 10) + (u64::MAX - d) % 10 == u64::MAX - d);
                    assert(acc * 10 + d > u64::MAX);
                    assert(dec_value(s@) > u64::MAX);
                }
            }
            return None;
        }
        acc = acc * 10 + d;
        i = i + 1;
    }
    proof {
        assert(s@.take(n as int) =~= s@);
    }
    Some(acc)
}

} // verus!
