//! What holds back users who have not consented to the latest legal documents.

use vstd::prelude::*;
use crate::error::{AppError, ProblemCode};
use crate::text;
use crate::text::{same, starts_with, strip_prefix};

verus! {

/// What the paths of the API start with.
pub open spec fn api_prefix() -> Seq<char> {
    "/api/v1"@
}

/// The paths, behind the prefix, that are open to a user whose consent is pending.
pub open spec fn consent_allowlist() -> Seq<Seq<char>> {
    seq![
        "/setup"@,
        "/branding"@,
        "/legal"@,
        "/auth/consents"@,
        "/auth/logout"@,
        "/auth/withdraw"@,
        "/auth/cancel-withdraw"@,
        "/me/export"@,
    ]
}

/// `path` is `root` or lies below it.
pub open spec fn at_or_below(path: Seq<char>, root: Seq<char>) -> bool {
    ||| path == root
    ||| text::begins(path, root) && text::begins(text::rest_from(path, root.len() as int), "/"@)
}

/// A request for `path` passes although consent is pending.
pub open spec fn exempt(path: Seq<char>) -> bool {
    &&& text::begins(path, api_prefix())
    &&& exists|i: int|
        0 <= i < consent_allowlist().len() && at_or_below(
            text::rest_from(path, api_prefix().len() as int),
            #[trigger] consent_allowlist()[i],
        )
}

fn is_at_or_below(path: &str, root: &str) -> (r: bool)
    ensures
        r == at_or_below(path@, root@),
{
    if same(path, root) {
        return true;
    }
    match strip_prefix(path, root) {
        Some(rest) => starts_with(rest, "/"),
        None => false,
    }
}

/// Whether a request for `path` passes although consent is pending.
pub fn consent_exempt(path: &str) -> (r: bool)
    ensures
        r == exempt(path@),
{
    let rest = match strip_prefix(path, "/api/v1") {
        None => {
            return false;
        },
        Some(rest) => rest,
    };
    let ghost list = consent_allowlist();
    let found: bool = is_at_or_below(rest, "/setup") || is_at_or_below(rest, "/branding")
        || is_at_or_below(rest, "/legal") || is_at_or_below(rest, "/auth/consents")
        || is_at_or_below(rest, "/auth/logout") || is_at_or_below(rest, "/auth/withdraw")
        || is_at_or_below(rest, "/auth/cancel-withdraw") || is_at_or_below(rest, "/me/export");
    proof {
        assert(list[0] == "/setup"@);
        assert(list[1] == "/branding"@);
        assert(list[2] == "/legal"@);
        assert(list[3] == "/auth/consents"@);
        assert(list[4] == "/auth/logout"@);
        assert(list[5] == "/auth/withdraw"@);
        assert(list[6] == "/auth/cancel-withdraw"@);
        assert(list[7] == "/me/export"@);
    }
    found
}

/// What is done next with a request of a user who may owe a consent.
#[derive(Debug)]
pub enum ConsentStep {
    /// The request goes on to its route.
    Pass,
    /// Ask whether the session's consent is pending.
    Ask,
    Refuse(AppError),
}

/// On arrival, only a request with a session cookie for a path that is not exempt is
/// asked about.
pub fn consent_entry(has_cookie: bool, path: &str) -> (r: ConsentStep)
    ensures
        r is Ask <==> has_cookie && !exempt(path@),
        r is Pass <==> !has_cookie || exempt(path@),
{
    if !has_cookie || consent_exempt(path) {
        ConsentStep::Pass
    } else {
        ConsentStep::Ask
    }
}

/// After the question, a pending consent refuses, and so does a question that failed.
pub fn consent_decision(pending: Result<bool, ()>) -> (r: ConsentStep)
    ensures
        r is Pass <==> pending == Ok::<bool, ()>(false),
        r matches ConsentStep::Refuse(e) ==> e@ == crate::error::problem(
            if pending is Ok {
                ProblemCode::ConsentRequired
            } else {
                ProblemCode::Internal
            },
        ),
        r !is Ask,
{
    match pending {
        Ok(false) => ConsentStep::Pass,
        Ok(true) => ConsentStep::Refuse(AppError::from_code(ProblemCode::ConsentRequired)),
        Err(()) => ConsentStep::Refuse(AppError::internal()),
    }
}

/// Whatever lies below an exempt path is exempt too.
pub proof fn law_exemption_covers_subpaths(path: Seq<char>, tail: Seq<char>)
    requires
        exempt(path),
    ensures
        exempt(path + "/"@ + tail),
{
    reveal_strlit("/");
    let p = api_prefix();
    let longer = path + "/"@ + tail;
    let i = choose|i: int|
        0 <= i < consent_allowlist().len() && at_or_below(
            text::rest_from(path, p.len() as int),
            #[trigger] consent_allowlist()[i],
        );
    let root = consent_allowlist()[i];
    let rest = text::rest_from(path, p.len() as int);
    let long = text::rest_from(longer, p.len() as int);
    assert(longer.subrange(0, p.len() as int) =~= path.subrange(0, p.len() as int));
    assert(long =~= rest + "/"@ + tail);
    assert(long.subrange(0, root.len() as int) =~= rest.subrange(0, root.len() as int));
    assert(rest.len() >= root.len());
    if rest == root {
        assert(rest.subrange(0, root.len() as int) =~= root);
        assert(text::rest_from(long, root.len() as int).subrange(0, 1) =~= "/"@);
    } else {
        let after = text::rest_from(rest, root.len() as int);
        assert(after.subrange(0, 1)[0] == "/"@[0]);
        assert(text::rest_from(long, root.len() as int).subrange(0, 1) =~= "/"@);
    }
    assert(at_or_below(long, consent_allowlist()[i]));
}

/// What passes although consent is pending lies in the API, at one of the paths that are open or
/// below it; a path beside them that only begins alike does not pass.
pub proof fn law_nothing_beside_the_list_is_exempt(rest: Seq<char>)
    ensures
        exempt("/api/v1"@ + rest) <==> exists|i: int|
            0 <= i < consent_allowlist().len() && (rest == (#[trigger] consent_allowlist()[i])
                || text::begins(rest, consent_allowlist()[i] + "/"@)),
{
    reveal_strlit("/api/v1");
    reveal_strlit("/");
    let path = "/api/v1"@ + rest;
    let n = "/api/v1"@.len() as int;
    assert(path.subrange(0, n) =~= "/api/v1"@);
    assert(text::rest_from(path, n) =~= rest);
    assert forall|root: Seq<char>| #[trigger] at_or_below(rest, root) <==> rest == root
        || text::begins(rest, root + "/"@) by {
        let k = root.len() as int;
        if text::begins(rest, root + "/"@) {
            assert((root + "/"@).subrange(0, k) =~= root);
            assert(rest.subrange(0, k) =~= rest.subrange(0, k + 1).subrange(0, k));
            assert(text::rest_from(rest, k).subrange(0, 1) =~= rest.subrange(0, k + 1).subrange(
                k,
                k + 1,
            ));
            assert((root + "/"@).subrange(k, k + 1) =~= "/"@);
        }
        if text::begins(rest, root) && text::begins(text::rest_from(rest, k), "/"@) {
            assert(rest.subrange(0, k + 1) =~= rest.subrange(0, k) + text::rest_from(
                rest,
                k,
            ).subrange(0, 1));
        }
    }
    if exempt(path) {
        let i = choose|i: int|
            0 <= i < consent_allowlist().len() && at_or_below(
                text::rest_from(path, api_prefix().len() as int),
                #[trigger] consent_allowlist()[i],
            );
        assert(at_or_below(rest, consent_allowlist()[i]));
    }
    if exists|i: int|
        0 <= i < consent_allowlist().len() && (rest == (#[trigger] consent_allowlist()[i])
            || text::begins(rest, consent_allowlist()[i] + "/"@)) {
        let i = choose|i: int|
            0 <= i < consent_allowlist().len() && (rest == (#[trigger] consent_allowlist()[i])
                || text::begins(rest, consent_allowlist()[i] + "/"@));
        assert(at_or_below(rest, consent_allowlist()[i]));
    }
}

} // verus!
