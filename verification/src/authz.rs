//! Who a request comes from, and what it may touch.

use vstd::prelude::*;
use vstd::string::*;
use vstd::utf8::*;
use crate::error::{AppError, DbFailure, ProblemCode};
use crate::header::read_header;
use crate::ids;
use crate::ids::Uuid;
use crate::text;
use crate::text::{before_char, same, split_on, strip_prefix, trim};

verus! {

/// What an API token may be granted.
#[derive(Clone, Copy, Debug, PartialEq, Eq, Structural)]
pub enum ApiTokenScope {
    DocumentsRead,
    DocumentsWrite,
    ProjectsManage,
    ProjectsRead,
    ShareManage,
    TasksRead,
    TasksWrite,
    WorkspaceManage,
}

/// What a route asks of a credential.
#[derive(Clone, Copy, Debug, PartialEq, Eq, Structural)]
pub enum Access {
    /// A session; tokens are told that the route does not exist.
    Session,
    /// A session or any token with a scope.
    Any,
    /// A session or a token with this scope.
    Scope(ApiTokenScope),
}

/// The user of a session or a token.
#[derive(Debug)]
pub struct SessionUser {
    pub user_id: String,
    pub session_id: String,
    pub email: String,
    pub has_password: bool,
}

/// A live API token.
#[derive(Debug)]
pub struct ApiTokenSession {
    pub user: SessionUser,
    pub token_id: Uuid,
    pub workspace_id: Uuid,
    /// The scopes that the token grants, those that others imply among them.
    pub scopes: Vec<ApiTokenScope>,
}

/// An authenticated request.
#[derive(Debug)]
pub struct RequestAuth {
    pub user: SessionUser,
    pub user_id: Uuid,
    /// The session or the token.
    pub credential_id: Uuid,
    /// The scopes of the token; none for a session.
    pub token_scopes: Option<Vec<ApiTokenScope>>,
    /// The workspace of the token; none for a session.
    pub token_workspace_id: Option<Uuid>,
}

/// The value of a hexadecimal digit.
pub open spec fn hex_digit(b: u8) -> Option<u8> {
    if 48 <= b <= 57 {
        Some((b - 48) as u8)
    } else if 97 <= b <= 102 {
        Some((b - 87) as u8)
    } else if 65 <= b <= 70 {
        Some((b - 55) as u8)
    } else {
        None
    }
}

fn from_hex(b: u8) -> (r: Option<u8>)
    ensures
        r == hex_digit(b),
        r matches Some(d) ==> d < 16,
{
    if 48 <= b && b <= 57 {
        Some(b - 48)
    } else if 97 <= b && b <= 102 {
        Some(b - 87)
    } else if 65 <= b && b <= 70 {
        Some(b - 55)
    } else {
        None
    }
}

/// `bytes` with every `%` and the two hexadecimal digits behind it replaced by the byte that they
/// write; none where digits are missing.
pub open spec fn percent_decoded(bytes: Seq<u8>) -> Option<Seq<u8>>
    decreases bytes.len(),
{
    if bytes.len() == 0 {
        Some(Seq::empty())
    } else if bytes[0] == 37 {
        if bytes.len() < 3 {
            None
        } else {
            match (
                hex_digit(bytes[1]),
                hex_digit(bytes[2]),
                percent_decoded(bytes.subrange(3, bytes.len() as int)),
            ) {
                (Some(hi), Some(lo), Some(rest)) => Some(seq![(hi * 16 + lo) as u8] + rest),
                _ => None,
            }
        }
    } else {
        match percent_decoded(bytes.drop_first()) {
            Some(rest) => Some(seq![bytes[0]] + rest),
            None => None,
        }
    }
}

/// `front` before a result that may not be there.
spec fn behind(front: Seq<u8>, rest: Option<Seq<u8>>) -> Option<Seq<u8>> {
    match rest {
        Some(r) => Some(front + r),
        None => None,
    }
}

/// Decodes percent-encoded bytes.
fn percent_bytes(bytes: &[u8]) -> (r: Option<Vec<u8>>)
    ensures
        match r {
            Some(v) => percent_decoded(bytes@) == Some(v@),
            None => percent_decoded(bytes@) is None,
        },
{
    let n: usize = bytes.len();
    let mut out: Vec<u8> = Vec::new();
    let mut i: usize = 0;
    proof {
        assert(bytes@.subrange(0, n as int) == bytes@);
        if percent_decoded(bytes@) is Some {
            assert(Seq::<u8>::empty() + percent_decoded(bytes@)->0 == percent_decoded(bytes@)->0);
        }
    }
    while i < n
        invariant
            i <= n == bytes@.len(),
            percent_decoded(bytes@) == behind(
                out@,
                percent_decoded(bytes@.subrange(i as int, n as int)),
            ),
        decreases n - i,
    {
        let ghost tail = bytes@.subrange(i as int, n as int);
        let ghost before = out@;
        if bytes[i] == 37 {
            if n - i < 3 {
                return None;
            }
            let hi: u8 = match from_hex(bytes[i + 1]) {
                None => {
                    return None;
                },
                Some(d) => d,
            };
            let lo: u8 = match from_hex(bytes[i + 2]) {
                None => {
                    return None;
                },
                Some(d) => d,
            };
            out.push(hi * 16 + lo);
            proof {
                let rest = percent_decoded(tail.subrange(3, tail.len() as int));
                assert(tail.subrange(3, tail.len() as int) == bytes@.subrange(i + 3, n as int));
                if rest is Some {
                    assert(before + (seq![(hi * 16 + lo) as u8] + rest->0) == before.push(
                        (hi * 16 + lo) as u8,
                    ) + rest->0);
                }
            }
            i = i + 3;
        } else {
            out.push(bytes[i]);
            proof {
                let rest = percent_decoded(tail.drop_first());
                assert(tail.drop_first() == bytes@.subrange(i + 1, n as int));
                if rest is Some {
                    assert(before + (seq![tail[0]] + rest->0) == before.push(tail[0]) + rest->0);
                }
            }
            i = i + 1;
        }
    }
    proof {
        assert(bytes@.subrange(i as int, n as int).len() == 0);
        assert(out@ + Seq::<u8>::empty() == out@);
    }
    Some(out)
}

/// `String::from_utf8`: the text that the bytes encode, where they are well-formed UTF-8.
#[verifier::external_body]
pub(crate) fn utf8_text(bytes: Vec<u8>) -> (r: Option<String>)
    ensures
        match r {
            Some(s) => valid_utf8(bytes@) && s@ == decode_utf8(bytes@),
            None => !valid_utf8(bytes@),
        },
{
    String::from_utf8(bytes).ok()
}

/// What a percent-encoded text says; none where digits are missing, or where the bytes that it
/// writes are no text.
pub open spec fn percent_text(s: Seq<char>) -> Option<Seq<char>> {
    match percent_decoded(encode_utf8(s)) {
        Some(bytes) => if valid_utf8(bytes) {
            Some(decode_utf8(bytes))
        } else {
            None
        },
        None => None,
    }
}

/// Reads a percent-encoded text.
pub fn percent_decode(value: &str) -> (r: Option<String>)
    ensures
        match r {
            Some(t) => percent_text(value@) == Some(t@),
            None => percent_text(value@) is None,
        },
{
    match percent_bytes(value.as_bytes()) {
        None => None,
        Some(bytes) => utf8_text(bytes),
    }
}

/// The value of a character as a hexadecimal digit.
pub open spec fn hex_value(c: char) -> Option<u8> {
    if c as u32 <= 127 {
        hex_digit(c as u8)
    } else {
        None
    }
}

/// From `at` on, a text writes a byte as a `%` and its two hexadecimal digits, each in either case.
pub open spec fn percent_at(encoded: Seq<char>, at: int, byte: u8) -> bool {
    &&& encoded[at] == '%'
    &&& hex_value(encoded[at + 1]) == Some((byte / 16) as u8)
    &&& hex_value(encoded[at + 2]) == Some((byte % 16) as u8)
}

/// `encoded` writes every byte as a `%` and its two digits.
pub open spec fn percent_written(encoded: Seq<char>, bytes: Seq<u8>) -> bool {
    &&& encoded.len() == 3 * bytes.len()
    &&& forall|i: int| 0 <= i < bytes.len() ==> percent_at(encoded, 3 * i, #[trigger] bytes[i])
}

/// A text of which every byte was written as a `%` and two digits is read back.
pub proof fn law_percent_encoding_is_read_back(s: Seq<char>, encoded: Seq<char>)
    requires
        percent_written(encoded, encode_utf8(s)),
    ensures
        percent_text(encoded) == Some(s),
{
    let bytes = encode_utf8(s);
    assert forall|k: int| 0 <= k < encoded.len() implies '\0' <= #[trigger] encoded[k]
        <= '\u{7f}' by {
        let i = k / 3;
        assert(percent_at(encoded, 3 * i, bytes[i]));
        assert(k == 3 * i || k == 3 * i + 1 || k == 3 * i + 2);
        lemma_ascii(encoded[k]);
    }
    assert(is_ascii_chars(encoded));
    is_ascii_chars_encode_utf8(encoded);
    lemma_percent_bytes(encoded, encode_utf8(encoded), bytes, 0);
    assert(encode_utf8(encoded).subrange(0, encoded.len() as int) == encode_utf8(encoded));
    assert(bytes.subrange(0, bytes.len() as int) == bytes);
    encode_utf8_valid_utf8(s);
    encode_utf8_decode_utf8(s);
}

/// A character with a digit's value, or a `%`, is ASCII.
proof fn lemma_ascii(c: char)
    requires
        c as u32 <= 127 || c == '%',
    ensures
        '\0' <= c <= '\u{7f}',
{
}

/// From a byte on, bytes that were written as `%` and two digits each are read back.
proof fn lemma_percent_bytes(encoded: Seq<char>, raw: Seq<u8>, bytes: Seq<u8>, from: int)
    requires
        percent_written(encoded, bytes),
        raw.len() == encoded.len(),
        forall|k: int| 0 <= k < raw.len() ==> encoded[k] as u8 == #[trigger] raw[k],
        0 <= from <= bytes.len(),
    ensures
        percent_decoded(raw.subrange(3 * from, raw.len() as int)) == Some(
            bytes.subrange(from, bytes.len() as int),
        ),
    decreases bytes.len() - from,
{
    let tail = raw.subrange(3 * from, raw.len() as int);
    let rest = bytes.subrange(from, bytes.len() as int);
    if from < bytes.len() {
        assert(percent_at(encoded, 3 * from, bytes[from]));
        assert(tail[0] == raw[3 * from] && tail[1] == raw[3 * from + 1] && tail[2] == raw[3 * from
            + 2]);
        lemma_percent_bytes(encoded, raw, bytes, from + 1);
        assert(tail.subrange(3, tail.len() as int) == raw.subrange(
            3 * (from + 1),
            raw.len() as int,
        ));
        assert(seq![bytes[from]] + bytes.subrange(from + 1, bytes.len() as int) == rest);
    } else {
        assert(rest == Seq::<u8>::empty());
    }
}

/// A text without `%` is read as it stands.
pub proof fn law_plain_text_is_kept(s: Seq<char>)
    requires
        !s.contains('%'),
    ensures
        percent_text(s) == Some(s),
{
    lemma_no_percent(s);
    lemma_plain_bytes(encode_utf8(s));
    encode_utf8_valid_utf8(s);
    encode_utf8_decode_utf8(s);
}

/// Bytes without a `%` are read as they stand.
proof fn lemma_plain_bytes(bytes: Seq<u8>)
    requires
        forall|i: int| 0 <= i < bytes.len() ==> #[trigger] bytes[i] != 37,
    ensures
        percent_decoded(bytes) == Some(bytes),
    decreases bytes.len(),
{
    if bytes.len() > 0 {
        lemma_plain_bytes(bytes.drop_first());
        assert(seq![bytes[0]] + bytes.drop_first() == bytes);
    } else {
        assert(bytes == Seq::<u8>::empty());
    }
}

/// Bytes with their highest bits set.
proof fn lemma_high(b: u8)
    by (bit_vector)
    ensures
        0x80u8 | b >= 128,
        0xC0u8 | b >= 128,
        0xE0u8 | b >= 128,
        0xF0u8 | b >= 128,
{
}

/// Only a `%` is encoded with the byte of one.
proof fn lemma_no_percent(s: Seq<char>)
    requires
        !s.contains('%'),
    ensures
        forall|i: int| 0 <= i < encode_utf8(s).len() ==> #[trigger] encode_utf8(s)[i] != 37,
    decreases s.len(),
{
    if s.len() > 0 {
        let c = s[0] as u32;
        assert(s[0] != '%');
        assert forall|x: char| s.drop_first().contains(x) implies s.contains(x) by {
            let k = choose|k: int| 0 <= k < s.drop_first().len() && s.drop_first()[k] == x;
            assert(s[k + 1] == x);
        }
        lemma_no_percent(s.drop_first());
        lemma_high(((c >> 6) & 0x1F) as u8);
        lemma_high(((c >> 12) & 0x0F) as u8);
        lemma_high(((c >> 18) & 0x7) as u8);
        lemma_high((c & 0x3F) as u8);
        lemma_high(((c >> 6) & 0x3F) as u8);
        lemma_high(((c >> 12) & 0x3F) as u8);
        assert(c <= 127 ==> (c & 0x7F) as u8 == c) by (bit_vector);
        char_is_scalar(s[0]);
        if c == 37 {
            char_u32_cast(s[0], 37);
        }
        let first = encode_scalar(c);
        assert forall|i: int| 0 <= i < first.len() implies #[trigger] first[i] != 37 by {}
        assert forall|i: int| 0 <= i < encode_utf8(s).len() implies #[trigger] encode_utf8(s)[i]
            != 37 by {
            if i < first.len() {
                assert(encode_utf8(s)[i] == first[i]);
            } else {
                assert(encode_utf8(s)[i] == encode_utf8(s.drop_first())[i - first.len()]);
            }
        }
    }
}

/// The path of a URL, decoded: without fragment and query, percent-decoded, as text.
pub open spec fn decoded_path(raw: Seq<char>) -> Option<Seq<char>> {
    percent_text(text::before(text::before(raw, '#'), '?'))
}

/// A segment that moves within a path instead of naming something in it.
pub open spec fn dot_segment(s: Seq<char>) -> bool {
    s == "."@ || s == ".."@
}

/// A path that names one place only: it can be decoded and has no dot segments.
pub open spec fn canonical(raw: Seq<char>) -> bool {
    match decoded_path(raw) {
        Some(path) => forall|i: int|
            0 <= i < text::split(path, '/').len() ==> !dot_segment(
                #[trigger] text::split(path, '/')[i],
            ),
        None => false,
    }
}

/// Refuses the path of a request with an API token where it is not canonical.
pub fn canonicalize_api_token_path(raw_path: &str) -> (r: Result<(), AppError>)
    ensures
        r is Ok <==> canonical(raw_path@),
        r matches Err(e) ==> e@ == crate::error::problem(ProblemCode::NotFound),
{
    let cut = before_char(before_char(raw_path, '#'), '?');
    let decoded = match percent_decode(cut) {
        None => {
            return Err(AppError::from_code(ProblemCode::NotFound));
        },
        Some(s) => s,
    };
    let parts = split_on(decoded.as_str(), '/');
    let ghost pieces = text::split(decoded@, '/');
    let mut i: usize = 0;
    while i < parts.len()
        invariant
            i <= parts@.len(),
            text::views(parts@) == pieces,
            pieces == text::split(decoded@, '/'),
            decoded_path(raw_path@) == Some(decoded@),
            forall|j: int| 0 <= j < i ==> !dot_segment(#[trigger] pieces[j]),
        decreases parts.len() - i,
    {
        assert(pieces[i as int] == parts@[i as int]@);
        if same(parts[i].as_str(), ".") || same(parts[i].as_str(), "..") {
            proof {
                let all = text::split(decoded@, '/');
                assert(all.len() == text::views(parts@).len());
                assert(0 <= i < all.len() && dot_segment(all[i as int]));
                assert(decoded_path(raw_path@)->0 == decoded@);
            }
            return Err(AppError::from_code(ProblemCode::NotFound));
        }
        i = i + 1;
    }
    Ok(())
}

/// The check before every route: a request with a bearer token needs a canonical path.
pub fn canonicalize_bearer_path(authorization: Option<&[u8]>, path: &str) -> (r: Result<(), AppError>)
    ensures
        r is Ok <==> (crate::guard::carries_bearer(authorization) ==> canonical(path@)),
        r matches Err(e) ==> e@ == crate::error::problem(ProblemCode::NotFound),
{
    if crate::guard::has_bearer(authorization) {
        canonicalize_api_token_path(path)
    } else {
        Ok(())
    }
}

/// The token behind `Bearer ` in an `Authorization` header, where there is one.
pub open spec fn bearer_of(authorization: Option<&[u8]>) -> Option<Seq<char>> {
    match crate::header::readable(authorization) {
        None => None,
        Some(a) => {
            let value = text::trimmed(a);
            if text::begins(value, "Bearer "@) {
                let token = text::trimmed(text::rest_from(value, "Bearer "@.len() as int));
                if token.len() > 0 {
                    Some(token)
                } else {
                    None
                }
            } else {
                None
            }
        },
    }
}

/// The token in an `Authorization` header.
pub fn bearer_token(authorization: Option<&[u8]>) -> (r: Option<String>)
    ensures
        crate::error::text_view(r) == bearer_of(authorization),
{
    match read_header(authorization) {
        None => None,
        Some(a) => match strip_prefix(trim(a.as_str()), "Bearer ") {
            None => None,
            Some(rest) => {
                let token = trim(rest);
                if token.is_empty() {
                    None
                } else {
                    Some(token.to_owned())
                }
            },
        },
    }
}

/// What a request presents to be recognised by.
#[derive(Debug)]
pub enum Credential {
    Session(String),
    Token(String),
}

/// The contents of a `Credential`.
pub enum CredentialView {
    Session(Seq<char>),
    Token(Seq<char>),
}

impl View for Credential {
    type V = CredentialView;

    open spec fn view(&self) -> CredentialView {
        match self {
            Credential::Session(s) => CredentialView::Session(s@),
            Credential::Token(s) => CredentialView::Token(s@),
        }
    }
}

/// A session cookie comes before a bearer token.
pub open spec fn credential_of(cookie: Option<&str>, authorization: Option<&[u8]>) -> Option<
    CredentialView,
> {
    match cookie {
        Some(c) => Some(CredentialView::Session(c@)),
        None => match bearer_of(authorization) {
            Some(t) => Some(CredentialView::Token(t)),
            None => None,
        },
    }
}

/// What a request presents; without anything it must authenticate.
pub fn presented_credential(cookie: Option<&str>, authorization: Option<&[u8]>) -> (r: Result<
    Credential,
    AppError,
>)
    ensures
        match r {
            Ok(c) => credential_of(cookie, authorization) == Some(c@),
            Err(e) => credential_of(cookie, authorization) is None && e@ == crate::error::problem(
                ProblemCode::AuthenticationRequired,
            ),
        },
{
    match cookie {
        Some(c) => Ok(Credential::Session(c.to_owned())),
        None => match bearer_token(authorization) {
            Some(t) => Ok(Credential::Token(t)),
            None => Err(AppError::from_code(ProblemCode::AuthenticationRequired)),
        },
    }
}

/// The id of a user; an unreadable one is no authentication.
pub fn parse_user_id(value: &str) -> (r: Result<Uuid, AppError>)
    ensures
        match r {
            Ok(id) => ids::uuid_of(value@) == Some(id.0),
            Err(e) => ids::uuid_of(value@) is None && e@ == crate::error::problem(
                ProblemCode::AuthenticationRequired,
            ),
        },
{
    match Uuid::parse_str(value) {
        Some(id) => Ok(id),
        None => Err(AppError::from_code(ProblemCode::AuthenticationRequired)),
    }
}

/// What the store knows of a presented credential.
#[derive(Debug)]
pub enum Resolved {
    Session(Option<SessionUser>),
    Token(Option<ApiTokenSession>),
    /// The store could not be asked.
    Failed,
}

/// `scope` is among `scopes`.
pub open spec fn granted(scopes: Seq<ApiTokenScope>, scope: ApiTokenScope) -> bool {
    scopes.contains(scope)
}

/// Whether `scope` is among `scopes`.
pub fn grants_api_token_scope(scopes: &[ApiTokenScope], scope: ApiTokenScope) -> (r: bool)
    ensures
        r == granted(scopes@, scope),
{
    let mut i: usize = 0;
    while i < scopes.len()
        invariant
            i <= scopes@.len(),
            forall|j: int| 0 <= j < i ==> #[trigger] scopes@[j] != scope,
        decreases scopes.len() - i,
    {
        if scopes[i] == scope {
            return true;
        }
        i = i + 1;
    }
    false
}

/// A token may be used on a route: not on one for sessions, only with some scope, with the one
/// that the route asks for, and only in its own workspace.
pub open spec fn token_admitted(
    scopes: Seq<ApiTokenScope>,
    token_workspace: Uuid,
    access: Access,
    workspace_id: Option<Uuid>,
) -> bool {
    &&& access != Access::Session
    &&& scopes.len() > 0
    &&& access matches Access::Scope(required) ==> granted(scopes, required)
    &&& workspace_id matches Some(w) ==> w == token_workspace
}

/// The problem that a credential ends in, if it does.
pub open spec fn auth_problem(
    resolved: Resolved,
    access: Access,
    workspace_id: Option<Uuid>,
) -> Option<ProblemCode> {
    match resolved {
        Resolved::Failed => Some(ProblemCode::Internal),
        Resolved::Session(None) => Some(ProblemCode::AuthenticationRequired),
        Resolved::Session(Some(user)) => if ids::uuid_of(user.session_id@) is None || ids::uuid_of(
            user.user_id@,
        ) is None {
            Some(ProblemCode::AuthenticationRequired)
        } else {
            None
        },
        Resolved::Token(None) => Some(ProblemCode::AuthenticationRequired),
        Resolved::Token(Some(token)) => if !token_admitted(
            token.scopes@,
            token.workspace_id,
            access,
            workspace_id,
        ) {
            Some(ProblemCode::NotFound)
        } else if ids::uuid_of(token.user.user_id@) is None {
            Some(ProblemCode::AuthenticationRequired)
        } else {
            None
        },
    }
}

/// The request that a recognised credential makes.
pub open spec fn authenticated(resolved: Resolved, auth: RequestAuth) -> bool {
    match resolved {
        Resolved::Session(Some(user)) => {
            &&& auth.user == user
            &&& ids::uuid_of(user.user_id@) == Some(auth.user_id.0)
            &&& ids::uuid_of(user.session_id@) == Some(auth.credential_id.0)
            &&& auth.token_scopes is None
            &&& auth.token_workspace_id is None
        },
        Resolved::Token(Some(token)) => {
            &&& auth.user == token.user
            &&& ids::uuid_of(token.user.user_id@) == Some(auth.user_id.0)
            &&& auth.credential_id == token.token_id
            &&& auth.token_scopes == Some(token.scopes)
            &&& auth.token_workspace_id == Some(token.workspace_id)
        },
        _ => false,
    }
}

/// What a token may do on a route.
pub fn apply_token_access(
    token: Option<ApiTokenSession>,
    access: Access,
    workspace_id: Option<Uuid>,
) -> (r: Result<RequestAuth, AppError>)
    ensures
        match r {
            Ok(auth) => auth_problem(Resolved::Token(token), access, workspace_id) is None
                && authenticated(Resolved::Token(token), auth),
            Err(e) => auth_problem(Resolved::Token(token), access, workspace_id) is Some && e@
                == crate::error::problem(
                auth_problem(Resolved::Token(token), access, workspace_id)->0,
            ),
        },
{
    let token = match token {
        None => {
            return Err(AppError::from_code(ProblemCode::AuthenticationRequired));
        },
        Some(token) => token,
    };
    if access == Access::Session || token.scopes.len() == 0 {
        return Err(AppError::from_code(ProblemCode::NotFound));
    }
    if let Access::Scope(required) = access {
        if !grants_api_token_scope(token.scopes.as_slice(), required) {
            return Err(AppError::from_code(ProblemCode::NotFound));
        }
    }
    if let Some(workspace) = workspace_id {
        if workspace != token.workspace_id {
            return Err(AppError::from_code(ProblemCode::NotFound));
        }
    }
    let user_id = match parse_user_id(token.user.user_id.as_str()) {
        Err(e) => {
            return Err(e);
        },
        Ok(id) => id,
    };
    Ok(
        RequestAuth {
            user: token.user,
            user_id,
            credential_id: token.token_id,
            token_scopes: Some(token.scopes),
            token_workspace_id: Some(token.workspace_id),
        },
    )
}

/// Recognises a request by what the store knows of its credential.
pub fn require_request_auth(
    resolved: Resolved,
    access: Access,
    workspace_id: Option<Uuid>,
) -> (r: Result<RequestAuth, AppError>)
    ensures
        match r {
            Ok(auth) => auth_problem(resolved, access, workspace_id) is None && authenticated(
                resolved,
                auth,
            ),
            Err(e) => auth_problem(resolved, access, workspace_id) is Some && e@
                == crate::error::problem(auth_problem(resolved, access, workspace_id)->0),
        },
{
    match resolved {
        Resolved::Failed => Err(AppError::internal()),
        Resolved::Session(None) => Err(AppError::from_code(ProblemCode::AuthenticationRequired)),
        Resolved::Session(Some(user)) => {
            let session_id = match Uuid::parse_str(user.session_id.as_str()) {
                None => {
                    return Err(AppError::from_code(ProblemCode::AuthenticationRequired));
                },
                Some(id) => id,
            };
            let user_id = match parse_user_id(user.user_id.as_str()) {
                Err(e) => {
                    return Err(e);
                },
                Ok(id) => id,
            };
            Ok(
                RequestAuth {
                    user,
                    user_id,
                    credential_id: session_id,
                    token_scopes: None,
                    token_workspace_id: None,
                },
            )
        },
        Resolved::Token(token) => apply_token_access(token, access, workspace_id),
    }
}

/// The problem of a route that asks for a session in a cookie and for nothing of its user, if it
/// comes to one: `found` is none where there is no cookie.
pub open spec fn cookie_problem(found: Option<Result<Option<SessionUser>, DbFailure>>) -> Option<
    ProblemCode,
> {
    match found {
        None => Some(ProblemCode::AuthenticationRequired),
        Some(Err(_)) => Some(ProblemCode::Internal),
        Some(Ok(None)) => Some(ProblemCode::AuthenticationRequired),
        Some(Ok(Some(user))) => if ids::uuid_of(user.session_id@) is None {
            Some(ProblemCode::AuthenticationRequired)
        } else {
            None
        },
    }
}

/// Finds the session of a cookie: the session and its id.
pub fn require_cookie(found: Option<Result<Option<SessionUser>, DbFailure>>) -> (r: Result<
    (SessionUser, Uuid),
    AppError,
>)
    ensures
        match r {
            Ok((user, id)) => {
                &&& cookie_problem(found) is None
                &&& found == Some(Ok::<_, DbFailure>(Some(user)))
                &&& ids::uuid_of(user.session_id@) == Some(id.0)
            },
            Err(e) => cookie_problem(found) matches Some(code) && e@ == crate::error::problem(code),
        },
{
    match found {
        None => Err(AppError::from_code(ProblemCode::AuthenticationRequired)),
        Some(Err(_)) => Err(AppError::internal()),
        Some(Ok(None)) => Err(AppError::from_code(ProblemCode::AuthenticationRequired)),
        Some(Ok(Some(user))) => match Uuid::parse_str(user.session_id.as_str()) {
            None => Err(AppError::from_code(ProblemCode::AuthenticationRequired)),
            Some(id) => Ok((user, id)),
        },
    }
}

/// A session that a route knows by its cookie alone is one in a cookie whose user has an id.
pub proof fn law_a_known_session_is_one_with_a_user(
    found: Option<Result<Option<SessionUser>, DbFailure>>,
)
    ensures
        session_problem(found) is None <==> cookie_problem(found) is None && ids::uuid_of(
            found->0->Ok_0->0.user_id@,
        ) is Some,
{
}

/// The problem of a route that only knows the session cookie, if it comes to one: `found` is none
/// where there is no cookie.
pub open spec fn session_problem(found: Option<Result<Option<SessionUser>, DbFailure>>) -> Option<
    ProblemCode,
> {
    match found {
        None => Some(ProblemCode::AuthenticationRequired),
        Some(Err(_)) => Some(ProblemCode::Internal),
        Some(Ok(user)) => auth_problem(Resolved::Session(user), Access::Session, None),
    }
}

/// Recognises a request by its session cookie alone: the session, its user and their ids.
pub fn require_session(found: Option<Result<Option<SessionUser>, DbFailure>>) -> (r: Result<
    RequestAuth,
    AppError,
>)
    ensures
        match r {
            Ok(auth) => session_problem(found) is None && authenticated(
                Resolved::Session(found->0->Ok_0),
                auth,
            ),
            Err(e) => session_problem(found) matches Some(code) && e@ == crate::error::problem(
                code,
            ),
        },
{
    match found {
        None => Err(AppError::from_code(ProblemCode::AuthenticationRequired)),
        Some(Err(_)) => Err(AppError::internal()),
        Some(Ok(user)) => require_request_auth(Resolved::Session(user), Access::Session, None),
    }
}

/// A second scope that a token needs on a route; sessions need none.
pub fn require_extra_scope(auth: &RequestAuth, scope: ApiTokenScope) -> (r: Result<(), AppError>)
    ensures
        r is Ok <==> (auth.token_scopes matches Some(scopes) ==> granted(scopes@, scope)),
        r matches Err(e) ==> e@ == crate::error::problem(ProblemCode::NotFound),
{
    match &auth.token_scopes {
        None => Ok(()),
        Some(scopes) => if grants_api_token_scope(scopes.as_slice(), scope) {
            Ok(())
        } else {
            Err(AppError::from_code(ProblemCode::NotFound))
        },
    }
}

/// A kind of content that a list may be narrowed to.
#[derive(Clone, Copy, Debug, PartialEq, Eq, Structural)]
pub enum ContentKind {
    Document,
    Task,
}

/// The kinds of content that a request may see: all for a session, those that it may read for a
/// token.
pub open spec fn content_kinds(scopes: Option<Vec<ApiTokenScope>>) -> Option<Seq<ContentKind>> {
    match scopes {
        None => None,
        Some(scopes) => Some(
            (if granted(scopes@, ApiTokenScope::DocumentsRead) {
                seq![ContentKind::Document]
            } else {
                Seq::empty()
            }) + (if granted(scopes@, ApiTokenScope::TasksRead) {
                seq![ContentKind::Task]
            } else {
                Seq::empty()
            }),
        ),
    }
}

/// The kinds of content that a request may see.
pub fn allowed_content_kinds(auth: &RequestAuth) -> (r: Option<Vec<ContentKind>>)
    ensures
        match r {
            Some(kinds) => content_kinds(auth.token_scopes) == Some(kinds@),
            None => content_kinds(auth.token_scopes) is None,
        },
{
    match &auth.token_scopes {
        None => None,
        Some(scopes) => {
            let mut kinds: Vec<ContentKind> = Vec::new();
            if grants_api_token_scope(scopes.as_slice(), ApiTokenScope::DocumentsRead) {
                kinds.push(ContentKind::Document);
            }
            if grants_api_token_scope(scopes.as_slice(), ApiTokenScope::TasksRead) {
                kinds.push(ContentKind::Task);
            }
            assert(kinds@ =~= content_kinds(auth.token_scopes)->0);
            Some(kinds)
        },
    }
}

/// The kinds of parents whose content a search may return.
#[derive(Clone, Copy, Debug, PartialEq, Eq, Structural)]
pub struct ParentKinds {
    pub document: bool,
    pub task: bool,
}

/// The kinds of parents whose content a search may return; none narrows nothing.
pub open spec fn parent_kinds(auth: RequestAuth) -> Option<ParentKinds> {
    match auth.token_scopes {
        None => None,
        Some(scopes) => Some(
            ParentKinds {
                document: granted(scopes@, ApiTokenScope::DocumentsRead),
                task: granted(scopes@, ApiTokenScope::TasksRead),
            },
        ),
    }
}

/// The kinds of parents whose content a search may return; none narrows nothing.
pub fn allowed_parent_kinds(auth: &RequestAuth) -> (r: Option<ParentKinds>)
    ensures
        r == parent_kinds(*auth),
{
    match &auth.token_scopes {
        None => None,
        Some(scopes) => Some(
            ParentKinds {
                document: grants_api_token_scope(scopes.as_slice(), ApiTokenScope::DocumentsRead),
                task: grants_api_token_scope(scopes.as_slice(), ApiTokenScope::TasksRead),
            },
        ),
    }
}

/// A token is never admitted to a route for sessions, nor without a scope, nor outside its
/// workspace; it is told that there is nothing.
pub proof fn law_token_confined(
    token: ApiTokenSession,
    access: Access,
    workspace_id: Option<Uuid>,
)
    requires
        access == Access::Session || token.scopes@.len() == 0 || (workspace_id is Some
            && workspace_id != Some(token.workspace_id)),
    ensures
        auth_problem(Resolved::Token(Some(token)), access, workspace_id) == Some(
            ProblemCode::NotFound,
        ),
{
}

/// A session is admitted wherever a token could be, whatever the route asks.
pub proof fn law_session_admitted_everywhere(
    user: SessionUser,
    a: Access,
    b: Access,
    v: Option<Uuid>,
    w: Option<Uuid>,
)
    ensures
        auth_problem(Resolved::Session(Some(user)), a, v) == auth_problem(
            Resolved::Session(Some(user)),
            b,
            w,
        ),
{
}

/// A path whose segments are these, once decoded, is canonical exactly where none of them moves
/// within the path.
pub proof fn law_canonical_path_has_no_moves(raw: Seq<char>, segments: Seq<Seq<char>>)
    requires
        segments.len() > 0,
        forall|i: int| 0 <= i < segments.len() ==> !(#[trigger] segments[i]).contains('/'),
        decoded_path(raw) == Some(text::joined(segments, seq!['/'])),
    ensures
        canonical(raw) <==> !segments.contains("."@) && !segments.contains(".."@),
{
    text::law_text_has_its_pieces(segments, '/');
    let path = decoded_path(raw)->0;
    assert(path == text::joined(segments, seq!['/']));
    let pieces = text::split(path, '/');
    assert(pieces == segments);
    if canonical(raw) {
        assert forall|i: int| 0 <= i < segments.len() implies #[trigger] segments[i] != "."@
            && segments[i] != ".."@ by {
            assert(!dot_segment(text::split(path, '/')[i]));
        }
    } else {
        let i = choose|i: int| 0 <= i < pieces.len() && dot_segment(#[trigger] pieces[i]);
        assert(segments.contains(segments[i]));
    }
}

/// What decides of a path is what stands before its fragment and its query.
pub proof fn law_query_and_fragment_do_not_count(path: Seq<char>, query: Seq<char>, tail: Seq<char>)
    requires
        !path.contains('#'),
        !path.contains('?'),
        !query.contains('#'),
    ensures
        decoded_path(path + seq!['?'] + query + seq!['#'] + tail) == percent_text(path),
        decoded_path(path + seq!['?'] + query) == percent_text(path),
        decoded_path(path) == percent_text(path),
{
    let full = path + seq!['?'] + query;
    assert(!full.contains('#')) by {
        if full.contains('#') {
            let k = full.index_of('#');
            if k < path.len() {
                assert(path[k] == '#');
            } else if k > path.len() {
                assert(query[k - path.len() - 1] == '#');
            }
        }
    }
    lemma_before_stops(full, tail, '#');
    lemma_before_stops(path, query, '?');
    lemma_before_all(full, '#');
    lemma_before_all(path, '#');
    lemma_before_all(path, '?');
}

proof fn lemma_before_stops(front: Seq<char>, rest: Seq<char>, c: char)
    requires
        !front.contains(c),
    ensures
        text::before(front + seq![c] + rest, c) == front,
    decreases front.len(),
{
    let s = front + seq![c] + rest;
    if front.len() > 0 {
        let less = front.drop_first();
        assert(front.contains(front[0]));
        assert forall|k: int| 0 <= k < less.len() implies #[trigger] less[k] != c by {
            assert(front[k + 1] == less[k]);
            assert(front.contains(front[k + 1]));
        }
        lemma_before_stops(less, rest, c);
        assert(s.drop_first() =~= less + seq![c] + rest);
        assert(seq![s[0]] + less =~= front);
    } else {
        assert(s[0] == c);
        assert(front =~= Seq::<char>::empty());
    }
}

proof fn lemma_before_all(s: Seq<char>, c: char)
    requires
        !s.contains(c),
    ensures
        text::before(s, c) == s,
{
    text::law_before_ends_at_the_first(s, c);
    if text::before(s, c) != s {
        let n = text::before(s, c).len() as int;
        if n >= s.len() {
            assert(s.subrange(0, s.len() as int) =~= s);
        }
        assert(s.contains(s[n]));
    }
}

/// A token behind `Bearer ` is read as it stands, and only such a header carries one.
pub proof fn law_bearer_token_is_read(header: &[u8], token: Seq<char>)
    requires
        token.len() > 0,
        !text::is_white(token[0]),
        !text::is_white(token.last()),
        crate::header::header_text(header@) == Some("Bearer "@ + token),
    ensures
        bearer_of(Some(header)) == Some(token),
        crate::guard::carries_bearer(Some(header)),
{
    reveal_strlit("Bearer ");
    let value = "Bearer "@ + token;
    text::law_trimming_is_done_once(value);
    text::law_trimming_is_done_once(token);
    assert(value[0] == 'B');
    assert(value.last() == token.last());
    assert(value.subrange(0, 7) =~= "Bearer "@);
    assert(text::rest_from(value, 7) =~= token);
}

/// A token that is read stands in a header that begins with `Bearer `, is not empty, and neither
/// begins nor ends with white space.
pub proof fn law_read_token_was_carried(authorization: Option<&[u8]>)
    requires
        bearer_of(authorization) is Some,
    ensures
        crate::guard::carries_bearer(authorization),
        bearer_of(authorization)->0.len() > 0,
        !text::is_white(bearer_of(authorization)->0[0]),
        !text::is_white(bearer_of(authorization)->0.last()),
{
    let value = text::trimmed(crate::header::readable(authorization)->0);
    let cut = text::law_trimming_takes_white_space_alone(
        text::rest_from(value, "Bearer "@.len() as int),
    );
}

/// A token is admitted exactly where it is in its own workspace, or in none, has a scope, and holds
/// the one that the route asks for; a route for sessions admits none.
pub proof fn law_token_is_admitted_by_its_scopes(
    token: ApiTokenSession,
    access: Access,
    workspace_id: Option<Uuid>,
)
    requires
        ids::uuid_of(token.user.user_id@) is Some,
    ensures
        auth_problem(Resolved::Token(Some(token)), access, workspace_id) is None <==> (
        workspace_id is None || workspace_id == Some(token.workspace_id)) && token.scopes@.len() > 0
            && match access {
            Access::Session => false,
            Access::Scope(scope) => token.scopes@.contains(scope),
            _ => true,
        },
        auth_problem(Resolved::Token(Some(token)), access, workspace_id) is Some ==> auth_problem(
            Resolved::Token(Some(token)),
            access,
            workspace_id,
        ) == Some(ProblemCode::NotFound),
{
}

/// More scopes admit to more: what a token may do, it may do with further scopes too.
pub proof fn law_more_scopes_admit_to_more(
    scopes: Seq<ApiTokenScope>,
    more: Seq<ApiTokenScope>,
    token_workspace: Uuid,
    access: Access,
    workspace_id: Option<Uuid>,
)
    requires
        token_admitted(scopes, token_workspace, access, workspace_id),
        forall|s: ApiTokenScope| #[trigger] scopes.contains(s) ==> more.contains(s),
        more.len() > 0,
    ensures
        token_admitted(more, token_workspace, access, workspace_id),
{
}

/// A session whose user has an id is admitted as that user, with the session's own id; a token as
/// its user, with the token's own id, scopes and workspace.
pub proof fn law_request_is_made_by_its_credential(
    user: SessionUser,
    token: ApiTokenSession,
    by_session: RequestAuth,
    by_token: RequestAuth,
)
    requires
        authenticated(Resolved::Session(Some(user)), by_session),
        authenticated(Resolved::Token(Some(token)), by_token),
    ensures
        by_session.user == user,
        ids::uuid_of(user.user_id@) == Some(by_session.user_id.0),
        ids::uuid_of(user.session_id@) == Some(by_session.credential_id.0),
        by_session.token_scopes is None && by_session.token_workspace_id is None,
        by_token.user == token.user,
        ids::uuid_of(token.user.user_id@) == Some(by_token.user_id.0),
        by_token.credential_id == token.token_id,
        by_token.token_scopes == Some(token.scopes),
        by_token.token_workspace_id == Some(token.workspace_id),
{
}

/// A request sees documents and tasks exactly where it comes from a session or from a token that
/// may read them; each kind is listed once.
pub proof fn law_kinds_follow_the_scopes(auth: RequestAuth)
    ensures
        auth.token_scopes is None ==> content_kinds(auth.token_scopes) is None && parent_kinds(
            auth,
        ) is None,
        auth.token_scopes matches Some(scopes) ==> {
            let kinds = content_kinds(auth.token_scopes)->0;
            &&& content_kinds(auth.token_scopes) is Some
            &&& kinds.contains(ContentKind::Document) <==> scopes@.contains(
                ApiTokenScope::DocumentsRead,
            )
            &&& kinds.contains(ContentKind::Task) <==> scopes@.contains(ApiTokenScope::TasksRead)
            &&& kinds.no_duplicates()
            &&& parent_kinds(auth) == Some(
                ParentKinds {
                    document: kinds.contains(ContentKind::Document),
                    task: kinds.contains(ContentKind::Task),
                },
            )
        },
{
    if let Some(scopes) = auth.token_scopes {
        let kinds = content_kinds(auth.token_scopes)->0;
        if granted(scopes@, ApiTokenScope::DocumentsRead) {
            assert(kinds[0] == ContentKind::Document);
        }
        if granted(scopes@, ApiTokenScope::TasksRead) {
            assert(kinds[kinds.len() - 1] == ContentKind::Task);
        }
    }
}

/// A session cookie counts before a bearer token, and without either there is no credential.
pub proof fn law_cookie_counts_first(cookie: Option<&str>, authorization: Option<&[u8]>)
    ensures
        cookie matches Some(c) ==> credential_of(cookie, authorization) == Some(
            CredentialView::Session(c@),
        ),
        cookie is None && bearer_of(authorization) is Some ==> credential_of(cookie, authorization)
            == Some(CredentialView::Token(bearer_of(authorization)->0)),
        credential_of(cookie, authorization) is None <==> cookie is None && bearer_of(authorization)
            is None,
{
}

} // verus!
