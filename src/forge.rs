//! Building the `Set-Cookie` values that install or destroy a session.
use vstd::prelude::*;

use crate::cookie::{cookie_name, cookie_value, term_value, CookieError};
use crate::text::{find_char, is_space, lemma_find_char, lemma_trim_end, lemma_trim_start, trim};

verus! {

/// A character that `http::HeaderValue::from_str` accepts: a tab, or one
/// whose UTF-8 bytes are all at least 32 and not 127.
pub open spec fn is_header_value_char(c: char) -> bool {
    c == '\t' || (32 <= c as u32 && c as u32 != 127)
}

/// Text that can stand as an HTTP header value.
pub open spec fn is_header_value(s: Seq<char>) -> bool {
    forall|i: int| 0 <= i < s.len() ==> is_header_value_char(#[trigger] s[i])
}

/// The attributes that every session cookie carries.
pub open spec fn cookie_attributes() -> Seq<char> {
    "; Path=/; HttpOnly"@
}

/// The `Set-Cookie` value that installs `token` as the session.
pub open spec fn session_cookie_text(token: Seq<char>) -> Seq<char> {
    "jwt="@ + token + cookie_attributes()
}

/// The `Set-Cookie` value that destroys the session: the same cookie with
/// an empty value and no lifetime left.
pub open spec fn logout_cookie_text() -> Seq<char> {
    session_cookie_text(Seq::empty()) + "; Max-Age=0"@
}

/// Relies on `http::HeaderValue::from_str`: it accepts a string exactly
/// when every byte is a tab, or at least 32 and not 127.
#[verifier::external_body]
fn is_valid_header_value(s: &str) -> (r: bool)
    ensures
        r == is_header_value(s@),
{
    http::HeaderValue::from_str(s).is_ok()
}

proof fn lemma_cookie_text_validity(token: Seq<char>)
    ensures
        is_header_value(session_cookie_text(token)) <==> is_header_value(token),
{
    reveal_strlit("jwt=");
    reveal_strlit("; Path=/; HttpOnly");
    let text = session_cookie_text(token);
    if is_header_value(token) {
        assert forall|i: int| 0 <= i < text.len() implies is_header_value_char(#[trigger] text[i]) by {
            if 4 <= i < 4 + token.len() {
                assert(text[i] == token[i - 4]);
            }
        }
    }
    if is_header_value(text) {
        assert forall|i: int| 0 <= i < token.len() implies is_header_value_char(#[trigger] token[i]) by {
            assert(text[i + 4] == token[i]);
        }
    }
}

/// Builds the `Set-Cookie` value `jwt=<token>; Path=/; HttpOnly`, or fails
/// when `token` holds characters that cannot stand in a header.
pub fn session_cookie(token: &str) -> (r: Result<String, CookieError>)
    ensures
        r is Ok <==> is_header_value(token@),
        r matches Ok(c) ==> c@ == session_cookie_text(token@),
        r matches Err(e) ==> e == CookieError::InvalidHeaderValue,
{
    let mut c = String::from_str("jwt=");
    c.append(token);
    c.append("; Path=/; HttpOnly");
    proof {
        lemma_cookie_text_validity(token@);
    }
    if is_valid_header_value(c.as_str()) {
        Ok(c)
    } else {
        Err(CookieError::InvalidHeaderValue)
    }
}

/// Builds the `Set-Cookie` value that makes the browser drop the session
/// cookie: `jwt=; Path=/; HttpOnly; Max-Age=0`.
pub fn logout_cookie() -> (r: String)
    ensures
        r@ == logout_cookie_text(),
        is_header_value(r@),
        cookie_value(r@, cookie_name()) is None,
{
    let mut c = String::from_str("jwt=");
    c.append("; Path=/; HttpOnly");
    c.append("; Max-Age=0");
    proof {
        reveal_strlit("jwt=");
        reveal_strlit("; Path=/; HttpOnly");
        reveal_strlit("; Max-Age=0");
        assert(c@ =~= logout_cookie_text());
        lemma_logout_cookie_binds_nothing();
    }
    c
}

/// The key of a term that starts `<spaces><name>=`, trimmed, is `name`.
proof fn lemma_term_key(term: Seq<char>, spaces: int, name: Seq<char>)
    requires
        0 <= spaces,
        spaces + name.len() < term.len(),
        name.len() > 0,
        forall|k: int| 0 <= k < spaces ==> term[k] == ' ',
        term.subrange(spaces, spaces + name.len() as int) == name,
        term[spaces + name.len()] == '=',
        !name.contains('='),
        !is_space(name[0]),
        !is_space(name.last()),
    ensures
        find_char(term, '=') == spaces + name.len(),
        trim(term.take(spaces + name.len() as int)) == name,
{
    let eq = spaces + name.len() as int;
    assert forall|k: int| 0 <= k < eq implies term[k] != '=' by {
        if spaces <= k {
            assert(term[k] == name[k - spaces]);
        }
    }
    lemma_find_char(term, '=', eq);
    let key = term.take(eq);
    assert forall|k: int| 0 <= k < spaces implies is_space(#[trigger] key[k]) by {}
    assert(key[spaces] == name[0]);
    lemma_trim_start(key, spaces);
    let rest = key.skip(spaces);
    assert(rest =~= name);
    lemma_trim_end(rest, name.len() as int);
    assert(rest.take(name.len() as int) =~= rest);
}

/// The cookie that destroys a session binds no value to `jwt`.
pub proof fn lemma_logout_cookie_binds_nothing()
    ensures
        cookie_value(logout_cookie_text(), cookie_name()) is None,
{
    reveal_strlit("jwt=");
    reveal_strlit("; Path=/; HttpOnly");
    reveal_strlit("; Max-Age=0");
    let text = logout_cookie_text();
    assert(text =~= "jwt=; Path=/; HttpOnly; Max-Age=0"@) by {
        reveal_strlit("jwt=; Path=/; HttpOnly; Max-Age=0");
    }
    // "jwt=": the value is empty.
    lemma_find_char(text, ';', 4);
    let t1 = text.take(4);
    assert(t1 =~= seq!['j', 'w', 't', '=']);
    lemma_find_char(t1, '=', 3);
    lemma_trim_start(t1.skip(4), 0);
    lemma_trim_end(t1.skip(4), 0);
    assert(term_value(t1, cookie_name()) is None);
    let r1 = text.skip(5);
    assert(cookie_value(text, cookie_name()) == cookie_value(r1, cookie_name()));
    // " Path=/": the key is not "jwt".
    lemma_find_char(r1, ';', 7);
    let path = seq!['P', 'a', 't', 'h'];
    assert(r1.take(7).subrange(1, 5) =~= path);
    lemma_term_key(r1.take(7), 1, path);
    assert(term_value(r1.take(7), cookie_name()) is None);
    let r2 = r1.skip(8);
    assert(cookie_value(r1, cookie_name()) == cookie_value(r2, cookie_name()));
    // " HttpOnly": no `=` at all.
    lemma_find_char(r2, ';', 9);
    lemma_find_char(r2.take(9), '=', 9);
    assert(term_value(r2.take(9), cookie_name()) is None);
    let r3 = r2.skip(10);
    assert(cookie_value(r2, cookie_name()) == cookie_value(r3, cookie_name()));
    // " Max-Age=0": the key is not "jwt", and nothing follows.
    assert(r3.len() == 10);
    lemma_find_char(r3, ';', 10);
    let max_age = seq!['M', 'a', 'x', '-', 'A', 'g', 'e'];
    assert(r3.take(10).subrange(1, 8) =~= max_age);
    lemma_term_key(r3.take(10), 1, max_age);
    assert(term_value(r3.take(10), cookie_name()) is None);
    assert(cookie_value(r3, cookie_name()) is None);
}

/// A session cookie that is installed and then read back under the name
/// `jwt` yields the token it was built from, provided the token holds no
/// `;` and is not blank.
pub proof fn lemma_install_then_extract(token: Seq<char>)
    requires
        !token.contains(';'),
        trim(token).len() > 0,
    ensures
        cookie_value(session_cookie_text(token), cookie_name()) == Some(token),
{
    reveal_strlit("jwt=");
    reveal_strlit("; Path=/; HttpOnly");
    let text = session_cookie_text(token);
    let end = 4 + token.len() as int;
    assert forall|k: int| 0 <= k < end implies text[k] != ';' by {
        if 4 <= k {
            assert(text[k] == token[k - 4]);
        }
    }
    lemma_find_char(text, ';', end);
    let term = text.take(end);
    assert(term =~= "jwt="@ + token);
    lemma_find_char(term, '=', 3);
    let k = term.take(3);
    assert(k =~= cookie_name());
    lemma_trim_start(k, 0);
    assert(k.skip(0) =~= k);
    lemma_trim_end(k, 3);
    assert(k.take(3) =~= k);
    assert(term.skip(4) =~= token);
    assert(term_value(term, cookie_name()) == Some(token));
}

} // verus!
