//! Cookies: the session and the state of a sign-in at another provider.

use vstd::prelude::*;
use vstd::string::*;
use crate::text::signed_decimal_string;

verus! {

/// What belongs to every cookie: not readable by scripts, for all paths, not sent along by other
/// sites' posts, and with `secure` over HTTPS only.
pub open spec fn cookie_text(
    name: Seq<char>,
    value: Seq<char>,
    max_age: int,
    secure: bool,
) -> Seq<char> {
    name + "="@ + value + "; HttpOnly; Path=/; SameSite=Lax; Max-Age="@
        + crate::text::signed_decimal(max_age) + if secure {
        "; Secure"@
    } else {
        ""@
    }
}

/// Writes a cookie.
pub fn write_cookie(name: &str, value: &str, max_age: i64, secure: bool) -> (r: String)
    ensures
        r@ == cookie_text(name@, value@, max_age as int, secure),
{
    let age = signed_decimal_string(max_age);
    let mut out: String = name.to_owned();
    out.append("=");
    out.append(value);
    out.append("; HttpOnly; Path=/; SameSite=Lax; Max-Age=");
    out.append(age.as_str());
    if secure {
        out.append("; Secure");
    } else {
        out.append("");
    }
    out
}

/// How sessions are kept in a browser.
#[derive(Debug)]
pub struct SessionCookie {
    /// The name of the cookie.
    pub name: String,
    /// Seconds that a session lives.
    pub ttl_secs: i64,
}

/// The cookie that carries a session token.
pub fn set_session_cookie(settings: &SessionCookie, secure: bool, token: &str) -> (r: String)
    ensures
        r@ == cookie_text(settings.name@, token@, settings.ttl_secs as int, secure),
{
    write_cookie(settings.name.as_str(), token, settings.ttl_secs, secure)
}

/// The cookie that makes a browser forget its session.
pub fn clear_session_cookie(settings: &SessionCookie, secure: bool) -> (r: String)
    ensures
        r@ == cookie_text(settings.name@, ""@, 0, secure),
{
    write_cookie(settings.name.as_str(), "", 0, secure)
}

/// A cookie can be sent where its name and value can.
pub proof fn law_cookie_is_sendable(name: Seq<char>, value: Seq<char>, max_age: int, secure: bool)
    requires
        crate::header::sendable(name),
        crate::header::sendable(value),
    ensures
        crate::header::sendable(cookie_text(name, value, max_age, secure)),
{
    reveal_strlit("=");
    reveal_strlit("; HttpOnly; Path=/; SameSite=Lax; Max-Age=");
    reveal_strlit("; Secure");
    reveal_strlit("");
    let attributes = "; HttpOnly; Path=/; SameSite=Lax; Max-Age="@;
    assert(crate::header::sendable(attributes));
    lemma_decimal_sendable(if max_age < 0 {
        (-max_age) as nat
    } else {
        max_age as nat
    });
    assert(crate::header::sendable(crate::text::signed_decimal(max_age)));
}

proof fn lemma_decimal_sendable(n: nat)
    ensures
        crate::header::sendable(crate::text::decimal(n)),
    decreases n,
{
    assert(forall|d: int|
        0 <= d < 10 ==> crate::header::sendable_char(#[trigger] crate::text::digit_char(d)));
    if n >= 10 {
        lemma_decimal_sendable(n / 10);
    }
}

/// A cookie begins with its name and value, is kept from scripts, is for all paths, is not sent
/// along by other sites' posts, and is kept to HTTPS exactly where it has to be.
pub proof fn law_cookie_is_guarded(name: Seq<char>, value: Seq<char>, max_age: int, secure: bool)
    ensures
        crate::text::begins(
            cookie_text(name, value, max_age, secure),
            name + "="@ + value + "; HttpOnly; Path=/; SameSite=Lax; Max-Age="@
                + crate::text::signed_decimal(max_age),
        ),
        crate::text::ends(cookie_text(name, value, max_age, secure), "; Secure"@) <==> secure,
{
    reveal_strlit("");
    reveal_strlit("; Secure");
    let front = name + "="@ + value + "; HttpOnly; Path=/; SameSite=Lax; Max-Age="@
        + crate::text::signed_decimal(max_age);
    let s = cookie_text(name, value, max_age, secure);
    assert(s.subrange(0, front.len() as int) =~= front);
    if secure {
        assert(s.subrange(s.len() - 8, s.len() as int) =~= "; Secure"@);
    } else {
        assert(s =~= front);
        let size = if max_age < 0 {
            -max_age
        } else {
            max_age
        };
        crate::number::law_decimal_is_read_back(size as nat);
        let digits = crate::text::decimal(size as nat);
        assert(crate::number::is_digit(digits[digits.len() - 1]));
        assert(s.last() == digits[digits.len() - 1]);
        if crate::text::ends(s, "; Secure"@) {
            assert(s.subrange(s.len() - 8, s.len() as int)[7] == "; Secure"@[7]);
        }
    }
}

/// Two cookies of one name and age are the same only where their values are.
pub proof fn law_cookie_keeps_its_value(
    name: Seq<char>,
    a: Seq<char>,
    b: Seq<char>,
    max_age: int,
    secure: bool,
)
    ensures
        cookie_text(name, a, max_age, secure) == cookie_text(name, b, max_age, secure) <==> a == b,
{
    let n = (name + "="@).len() as int;
    let s = cookie_text(name, a, max_age, secure);
    let t = cookie_text(name, b, max_age, secure);
    assert(s.subrange(n, n + a.len()) =~= a);
    assert(t.subrange(n, n + b.len()) =~= b);
}

} // verus!
