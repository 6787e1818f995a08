//! How a problem with a code of its own is answered.

use vstd::prelude::*;
use crate::error::{ApiError, ApiErrorView, Params, ParamsView};
use crate::header;
use crate::header::{Header, no_headers, put};
use crate::json;
use crate::json::{Json, JsonView};
use crate::text;
use crate::text::decimal_string;

verus! {

/// What a problem says beside its code, as JSON.
pub open spec fn params_json(params: ParamsView) -> JsonView {
    match params {
        ParamsView::Code(code) => JsonView::Object(seq![("code"@, JsonView::Text(code))]),
        ParamsView::Limit(n) => JsonView::Object(
            seq![("limit"@, JsonView::Number(text::decimal(n as nat)))],
        ),
    }
}

/// What a problem says beside its code.
pub open spec fn said(params: Option<Params>) -> Option<ParamsView> {
    match params {
        Some(p) => Some(p@),
        None => None,
    }
}

/// The members of the body of a problem.
pub open spec fn problem_members(
    status: u16,
    code: Seq<char>,
    title: Seq<char>,
    params: Option<ParamsView>,
) -> Seq<(Seq<char>, JsonView)> {
    let base = seq![
        ("type"@, JsonView::Text("about:blank"@)),
        ("title"@, JsonView::Text(title)),
        ("status"@, JsonView::Number(text::decimal(status as nat))),
        ("code"@, JsonView::Text(code)),
    ];
    match params {
        Some(p) => base.push(("params"@, params_json(p))),
        None => base,
    }
}

/// The headers of a problem.
pub open spec fn problem_headers(retry_after: Option<u32>) -> Seq<(Seq<char>, Seq<char>)> {
    let base = seq![("content-type"@, "application/problem+json"@)];
    match retry_after {
        Some(secs) => base.push(("retry-after"@, text::decimal(secs as nat))),
        None => base,
    }
}

/// The answer to a request that is refused with a code of its own.
#[derive(Debug)]
pub struct CodedReply {
    pub status: u16,
    pub headers: Vec<Header>,
    pub body: Json,
}

fn pushed(members: &mut Vec<(String, Json)>, name: &str, value: Json)
    ensures
        json::members_view(final(members)@) == json::members_view(old(members)@).push(
            (name@, value@),
        ),
{
    members.push((name.to_string(), value));
    assert(json::members_view(members@) =~= json::members_view(old(members)@).push(
        (name@, value@),
    ));
}

fn object(members: Vec<(String, Json)>) -> (r: Json)
    ensures
        r@ == JsonView::Object(json::members_view(members@)),
{
    proof {
        json::lemma_object_view(members);
    }
    Json::Object(members)
}

fn write_params(params: &Params) -> (r: Json)
    ensures
        r@ == params_json(params@),
{
    let mut members: Vec<(String, Json)> = Vec::new();
    assert(json::members_view(members@) =~= Seq::<(Seq<char>, JsonView)>::empty());
    match params {
        Params::Code(code) => {
            pushed(&mut members, "code", Json::Text(code.as_str().to_string()));
        },
        Params::Limit(n) => {
            pushed(&mut members, "limit", Json::Number(decimal_string(*n)));
        },
    }
    assert(json::members_view(members@) =~= params_json(params@)->Object_0);
    object(members)
}

/// The answer to a request that is refused with a code of its own.
pub fn coded_reply(
    status: u16,
    code: &str,
    title: &str,
    params: &Option<Params>,
    retry_after: Option<u32>,
) -> (r: CodedReply)
    ensures
        r.status == status,
        header::header_views(r.headers@) == problem_headers(retry_after),
        r.body@ == JsonView::Object(
            problem_members(status, code@, title@, said(*params)),
        ),
{
    let mut members: Vec<(String, Json)> = Vec::new();
    assert(json::members_view(members@) =~= Seq::<(Seq<char>, JsonView)>::empty());
    pushed(&mut members, "type", Json::Text("about:blank".to_string()));
    pushed(&mut members, "title", Json::Text(title.to_string()));
    pushed(&mut members, "status", Json::Number(decimal_string(status as u64)));
    pushed(&mut members, "code", Json::Text(code.to_string()));
    if let Some(p) = params {
        pushed(&mut members, "params", write_params(p));
    }
    assert(json::members_view(members@) =~= problem_members(
        status,
        code@,
        title@,
        said(*params),
    ));
    let mut headers = no_headers();
    put(&mut headers, "content-type", "application/problem+json");
    if let Some(secs) = retry_after {
        let text = decimal_string(secs as u64);
        put(&mut headers, "retry-after", text.as_str());
    }
    assert(header::header_views(headers@) =~= problem_headers(retry_after));
    CodedReply { status, headers, body: object(members) }
}

impl ApiError {
    /// The answer, where the problem has a code of its own.
    pub fn reply(&self) -> (r: Option<CodedReply>)
        ensures
            match self@ {
                ApiErrorView::App(_) => r is None,
                ApiErrorView::Coded { status, code, title, params } => r matches Some(reply) && {
                    &&& reply.status == status
                    &&& header::header_views(reply.headers@) == problem_headers(None)
                    &&& reply.body@ == JsonView::Object(
                        problem_members(status, code, title, params),
                    )
                },
            },
    {
        match self {
            ApiError::App(_) => None,
            ApiError::Coded { status, code, title, params } => Some(
                coded_reply(*status, code.as_str(), title.as_str(), params, None),
            ),
        }
    }
}

/// The body of a problem says its status and its code, whatever else it says.
pub proof fn law_problem_says_its_code(
    status: u16,
    code: Seq<char>,
    title: Seq<char>,
    params: Option<ParamsView>,
)
    ensures
        json::find(problem_members(status, code, title, params), "code"@) == Some(
            JsonView::Text(code),
        ),
        json::find(problem_members(status, code, title, params), "status"@) == Some(
            JsonView::Number(text::decimal(status as nat)),
        ),
{
    reveal_strlit("type");
    reveal_strlit("title");
    reveal_strlit("status");
    reveal_strlit("code");
    reveal_with_fuel(json::find, 5);
    let m = problem_members(status, code, title, params);
    assert("type"@ != "code"@ && "type"@ != "status"@) by {
        assert("type"@[0] == 't' && "code"@[0] == 'c' && "status"@[0] == 's');
    }
    assert("title"@.len() == 5 && "code"@.len() == 4 && "status"@.len() == 6);
    assert(m.drop_first().drop_first().drop_first()[0] == m[3]);
}

/// The body of a problem says its title, that its type is no more than that, and what it says
/// beside its code exactly where it says something.
pub proof fn law_problem_says_its_title_and_params(
    status: u16,
    code: Seq<char>,
    title: Seq<char>,
    params: Option<ParamsView>,
)
    ensures
        ({
            let members = problem_members(status, code, title, params);
            &&& json::find(members, "type"@) == Some(JsonView::Text("about:blank"@))
            &&& json::find(members, "title"@) == Some(JsonView::Text(title))
            &&& json::find(members, "params"@) == match params {
                Some(ParamsView::Code(detail)) => Some(
                    JsonView::Object(seq![("code"@, JsonView::Text(detail))]),
                ),
                Some(ParamsView::Limit(n)) => Some(
                    JsonView::Object(seq![("limit"@, JsonView::Number(text::decimal(n as nat)))]),
                ),
                None => None,
            }
        }),
{
    reveal_strlit("type");
    reveal_strlit("title");
    reveal_strlit("status");
    reveal_strlit("code");
    reveal_strlit("params");
    let m = problem_members(status, code, title, params);
    assert("type"@[0] != "code"@[0] && "type"@[0] != "params"@[0]);
    let m1 = m.drop_first();
    let m2 = m1.drop_first();
    let m3 = m2.drop_first();
    let m4 = m3.drop_first();
    assert("title"@.len() != "type"@.len());
    assert("params"@.len() != "title"@.len() && "params"@.len() != "code"@.len());
    assert("params"@[0] != "status"@[0]);
    assert(json::find(m, "title"@) == json::find(m1, "title"@));
    assert(json::find(m, "params"@) == json::find(m1, "params"@));
    assert(json::find(m1, "params"@) == json::find(m2, "params"@));
    assert(json::find(m2, "params"@) == json::find(m3, "params"@));
    assert(json::find(m3, "params"@) == json::find(m4, "params"@));
    if let Some(p) = params {
        assert(m4[0] == ("params"@, params_json(p)));
    } else {
        assert(m4.len() == 0);
    }
}

/// A problem is announced as one, and says when to try again exactly where it has to.
pub proof fn law_problem_says_when_to_try_again(retry_after: Option<u32>)
    ensures
        problem_headers(retry_after).contains(("content-type"@, "application/problem+json"@)),
        forall|value: Seq<char>|
            problem_headers(retry_after).contains(("retry-after"@, value)) <==> (
            retry_after matches Some(secs) && value == text::decimal(secs as nat)),
{
    reveal_strlit("content-type");
    reveal_strlit("retry-after");
    assert("content-type"@.len() != "retry-after"@.len());
    let h = problem_headers(retry_after);
    assert(h[0] == ("content-type"@, "application/problem+json"@));
    if let Some(secs) = retry_after {
        assert(h[1] == ("retry-after"@, text::decimal(secs as nat)));
    }
}

} // verus!
