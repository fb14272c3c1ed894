//! Reading the session credential out of `Cookie` headers.
use vstd::prelude::*;

use crate::text::{
    ascii_chars, find_char, header_text, is_header_text, is_space, is_space_char, lemma_find_char,
    lemma_trim_end, lemma_trim_start, string_of, trim, chars_of,
};

verus! {

/// Why a cookie could not be read or written.
#[derive(Clone, Copy, Debug, PartialEq, Eq)]
pub enum CookieError {
    /// A `Cookie` header holds bytes that are not visible ASCII.
    UnreadableHeader,
    /// A `Set-Cookie` value would hold characters illegal in a header.
    InvalidHeaderValue,
}

/// The name of the cookie that carries the session token.
pub open spec fn cookie_name() -> Seq<char> {
    seq!['j', 'w', 't']
}

/// The value that one `key=value` term binds to `key`: the term is split
/// at its first `=`, the trimmed key must equal `key` and the trimmed
/// value must not be empty. The value is returned as written.
pub open spec fn term_value(term: Seq<char>, key: Seq<char>) -> Option<Seq<char>> {
    let eq = find_char(term, '=') as int;
    if eq < term.len() {
        let k = term.take(eq);
        let v = term.skip(eq + 1);
        if trim(k) == key && trim(v).len() > 0 {
            Some(v)
        } else {
            None
        }
    } else {
        None
    }
}

/// The first value bound to `key` among the `;`-separated terms of a
/// cookie header, or `None`.
pub open spec fn cookie_value(cookie: Seq<char>, key: Seq<char>) -> Option<Seq<char>>
    decreases cookie.len(),
{
    let end = find_char(cookie, ';') as int;
    match term_value(cookie.take(end), key) {
        Some(v) => Some(v),
        None => if end < cookie.len() {
            cookie_value(cookie.skip(end + 1), key)
        } else {
            None
        },
    }
}

/// The session token of a request whose `Cookie` headers are `headers`:
/// the headers are read in order, a header that is not text is an error,
/// and the first header that binds `jwt` gives the token.
pub open spec fn token_in_headers(headers: Seq<Seq<u8>>) -> Result<Option<Seq<char>>, CookieError>
    decreases headers.len(),
{
    if headers.len() == 0 {
        Ok(None)
    } else if !is_header_text(headers[0]) {
        Err(CookieError::UnreadableHeader)
    } else {
        match cookie_value(ascii_chars(headers[0]), cookie_name()) {
            Some(v) => Ok(Some(v)),
            None => token_in_headers(headers.drop_first()),
        }
    }
}

/// The index of the first `c` in `s[from..to]`, or `to`.
fn find_from(s: &[char], c: char, from: usize, to: usize) -> (r: usize)
    requires
        from <= to <= s@.len(),
    ensures
        from <= r <= to,
        r - from == find_char(s@.subrange(from as int, to as int), c),
{
    let mut i = from;
    while i < to && s[i] != c
        invariant
            from <= i <= to <= s@.len(),
            forall|k: int| from <= k < i ==> s@[k] != c,
        decreases to - i,
    {
        i = i + 1;
    }
    proof {
        lemma_find_char(s@.subrange(from as int, to as int), c, i - from);
    }
    i
}

/// The bounds of `s[lo..hi]` once whitespace is trimmed from both ends.
fn trim_bounds(s: &[char], lo: usize, hi: usize) -> (r: (usize, usize))
    requires
        lo <= hi <= s@.len(),
    ensures
        lo <= r.0 <= r.1 <= hi,
        trim(s@.subrange(lo as int, hi as int)) == s@.subrange(r.0 as int, r.1 as int),
{
    let mut a = lo;
    while a < hi && is_space_char(s[a])
        invariant
            lo <= a <= hi <= s@.len(),
            forall|k: int| lo <= k < a ==> is_space(#[trigger] s@[k]),
        decreases hi - a,
    {
        a = a + 1;
    }
    let mut b = hi;
    while b > a && is_space_char(s[b - 1])
        invariant
            lo <= a <= b <= hi <= s@.len(),
            forall|k: int| b <= k < hi ==> is_space(#[trigger] s@[k]),
        decreases b - a,
    {
        b = b - 1;
    }
    proof {
        let t = s@.subrange(lo as int, hi as int);
        assert forall|k: int| 0 <= k < a - lo implies is_space(#[trigger] t[k]) by {
            assert(t[k] == s@[lo + k]);
        }
        lemma_trim_start(t, a - lo);
        let u = t.skip(a - lo);
        assert(u =~= s@.subrange(a as int, hi as int));
        assert forall|k: int| b - a <= k < u.len() implies is_space(#[trigger] u[k]) by {
            assert(u[k] == s@[a + k]);
        }
        lemma_trim_end(u, b - a);
        assert(u.take(b - a) =~= s@.subrange(a as int, b as int));
    }
    (a, b)
}

/// Whether `s[lo..hi]` equals `key`.
fn range_equals(s: &[char], lo: usize, hi: usize, key: &[char]) -> (r: bool)
    requires
        lo <= hi <= s@.len(),
    ensures
        r == (s@.subrange(lo as int, hi as int) == key@),
{
    if hi - lo != key.len() {
        return false;
    }
    let mut i: usize = 0;
    while i < key.len()
        invariant
            lo <= hi <= s@.len(),
            hi - lo == key@.len(),
            i <= key@.len(),
            forall|k: int| 0 <= k < i ==> s@[lo + k] == key@[k],
        decreases key@.len() - i,
    {
        if s[lo + i] != key[i] {
            assert(s@.subrange(lo as int, hi as int)[i as int] != key@[i as int]);
            return false;
        }
        i = i + 1;
    }
    assert(s@.subrange(lo as int, hi as int) =~= key@);
    true
}

/// The value that the term `s[lo..hi]` binds to `key`.
fn term_value_in(s: &[char], lo: usize, hi: usize, key: &[char]) -> (r: Option<String>)
    requires
        lo <= hi <= s@.len(),
    ensures
        match r {
            Some(v) => term_value(s@.subrange(lo as int, hi as int), key@) == Some(v@),
            None => term_value(s@.subrange(lo as int, hi as int), key@) is None,
        },
{
    let ghost term = s@.subrange(lo as int, hi as int);
    let eq = find_from(s, '=', lo, hi);
    if eq == hi {
        return None;
    }
    assert(term.take(eq - lo) =~= s@.subrange(lo as int, eq as int));
    assert(term.skip(eq - lo + 1) =~= s@.subrange(eq + 1, hi as int));
    let (ka, kb) = trim_bounds(s, lo, eq);
    if !range_equals(s, ka, kb, key) {
        return None;
    }
    let (va, vb) = trim_bounds(s, eq + 1, hi);
    if va == vb {
        return None;
    }
    Some(string_of(s, eq + 1, hi))
}

/// The first value bound to `key` in the cookie header text `s`.
fn cookie_value_in(s: &[char], key: &[char]) -> (r: Option<String>)
    ensures
        match r {
            Some(v) => cookie_value(s@, key@) == Some(v@),
            None => cookie_value(s@, key@) is None,
        },
{
    let mut start: usize = 0;
    assert(s@.skip(0) =~= s@);
    loop
        invariant
            start <= s@.len(),
            cookie_value(s@, key@) == cookie_value(s@.skip(start as int), key@),
        decreases s@.len() - start,
    {
        let ghost rest = s@.skip(start as int);
        let end = find_from(s, ';', start, s.len());
        assert(rest =~= s@.subrange(start as int, s@.len() as int));
        assert(rest.take(end - start) =~= s@.subrange(start as int, end as int));
        match term_value_in(s, start, end, key) {
            Some(v) => {
                return Some(v);
            },
            None => {},
        }
        if end == s.len() {
            return None;
        }
        assert(rest.skip(end - start + 1) =~= s@.skip(end + 1));
        start = end + 1;
    }
}

/// Returns the first value bound to `key` in a cookie header, or `None`.
/// Terms are separated by `;` and split at their first `=`; a term matches
/// when its trimmed key equals `key` and its trimmed value is not empty.
pub fn get_cookie_value(cookie: &str, key: &str) -> (r: Option<String>)
    ensures
        match r {
            Some(v) => cookie_value(cookie@, key@) == Some(v@),
            None => cookie_value(cookie@, key@) is None,
        },
{
    let c = chars_of(cookie);
    let k = chars_of(key);
    cookie_value_in(c.as_slice(), k.as_slice())
}

/// The name of the session cookie, as characters.
fn cookie_key() -> (r: Vec<char>)
    ensures
        r@ == cookie_name(),
{
    let r = vec!['j', 'w', 't'];
    assert(r@ =~= cookie_name());
    r
}

/// Returns the session token carried by a request's `Cookie` headers,
/// given as raw bytes in the order they arrived: `Ok(None)` when no header
/// binds `jwt`, and an error when a header is not text.
pub fn get_token(headers: &Vec<Vec<u8>>) -> (r: Result<Option<String>, CookieError>)
    ensures
        match r {
            Ok(Some(t)) => token_in_headers(headers.deep_view()) == Ok::<Option<Seq<char>>, CookieError>(Some(t@)),
            Ok(None) => token_in_headers(headers.deep_view()) == Ok::<Option<Seq<char>>, CookieError>(None),
            Err(e) => token_in_headers(headers.deep_view()) == Err::<Option<Seq<char>>, CookieError>(e),
        },
{
    let ghost all = headers.deep_view();
    let key = cookie_key();
    let mut i: usize = 0;
    assert(all.skip(0) =~= all);
    while i < headers.len()
        invariant
            i <= headers@.len(),
            all == headers.deep_view(),
            key@ == cookie_name(),
            token_in_headers(all) == token_in_headers(all.skip(i as int)),
        decreases headers@.len() - i,
    {
        let ghost rest = all.skip(i as int);
        assert(rest[0] == headers@[i as int]@);
        assert(rest.drop_first() =~= all.skip(i + 1));
        match header_text(headers[i].as_slice()) {
            None => {
                return Err(CookieError::UnreadableHeader);
            },
            Some(t) => {
                match cookie_value_in(t.as_slice(), key.as_slice()) {
                    Some(v) => {
                        return Ok(Some(v));
                    },
                    None => {},
                }
            },
        }
        i = i + 1;
    }
    assert(all.skip(i as int) =~= Seq::<Seq<u8>>::empty());
    Ok(None)
}

} // verus!
