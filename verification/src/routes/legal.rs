//! Legal documents, consents to them, and what anyone may see of an instance.

use vstd::prelude::*;
use vstd::string::*;
use crate::answer;
use crate::answer::{Answer, answer_all};
use crate::digest;
use crate::digest::{sha256_hex, strong_etag};
use crate::error;
use crate::error::{AppError, DbFailure, ProblemCode};
use crate::header;
use crate::header::{Header, if_none_matches, no_headers, not_modified, put, put_sendable};
use crate::ids;
use crate::ids::Uuid;
use crate::number;
use crate::number::coerce;
use crate::routes::account::OkResponse;
use crate::routes::admin;
use crate::routes::admin::{BRANDING_ASSET_MAX_BYTES, BrandingAsset, LegalDocument};
use crate::text;
use crate::text::{same, trim};
use crate::time::Timestamp;

verus! {

/// How long what anyone may see is kept by browsers and proxies.
pub open spec fn public_cache_control() -> Seq<char> {
    "public, max-age=60"@
}

/// The kind of a legal document in a path.
pub fn kind_param(known: bool) -> (r: Result<(), AppError>)
    ensures
        r is Ok <==> known,
        r is Err ==> error::refused_at(r, ProblemCode::InvalidInput, "/kind"@),
{
    if known {
        Ok(())
    } else {
        Err(AppError::with_source(ProblemCode::InvalidInput, "/kind"))
    }
}

/// The version of a legal document in a query: a whole number from one on.
pub fn version_param(raw: &str) -> (r: Result<i32, AppError>)
    ensures
        match r {
            Ok(n) => n >= 1 && number::coerced(
                text::trimmed(raw@),
                i32::MAX as nat,
                Some(n as u64),
            ),
            Err(e) => number::coerced(text::trimmed(raw@), i32::MAX as nat, None) && e@
                == error::problem(ProblemCode::InvalidInput),
        },
{
    match coerce(trim(raw), i32::MAX as u64) {
        Some(n) => Ok(n as i32),
        None => Err(AppError::from_code(ProblemCode::InvalidInput)),
    }
}

/// A version of a legal document as it is listed.
#[derive(Debug)]
pub struct LegalVersionMetaOutput {
    pub kind: String,
    pub version: i32,
    pub title: String,
    pub effective_at: Timestamp,
    pub required: bool,
    pub published_at: Timestamp,
}

impl Answer for LegalDocument {
    type Out = LegalVersionMetaOutput;

    open spec fn answered(&self, out: &LegalVersionMetaOutput) -> bool {
        &&& out.kind@ == self.kind@
        &&& out.version == self.version
        &&& out.title@ == self.title@
        &&& out.effective_at == self.effective_at
        &&& out.required == self.required
        &&& out.published_at == self.published_at
    }

    fn answer(&self) -> (r: LegalVersionMetaOutput) {
        LegalVersionMetaOutput {
            kind: self.kind.clone(),
            version: self.version,
            title: self.title.clone(),
            effective_at: self.effective_at,
            required: self.required,
            published_at: self.published_at,
        }
    }
}

/// A consent that is given.
#[derive(Debug)]
pub struct ConsentItem {
    pub kind: String,
    pub version: i64,
}

/// A version that a legal document can have.
pub open spec fn version_fits(version: i64) -> bool {
    i32::MIN <= version <= i32::MAX
}

/// The consents to versions that can be, in order.
pub open spec fn possible_consents(items: Seq<ConsentItem>) -> Seq<(Seq<char>, i32)>
    decreases items.len(),
{
    if items.len() == 0 {
        Seq::empty()
    } else {
        let before = possible_consents(items.drop_last());
        if version_fits(items.last().version) {
            before.push((items.last().kind@, items.last().version as i32))
        } else {
            before
        }
    }
}

/// The contents of a list of consents.
pub open spec fn consent_views(items: Seq<(String, i32)>) -> Seq<(Seq<char>, i32)> {
    items.map_values(|c: (String, i32)| (c.0@, c.1))
}

/// Reads the consents that are given: there has to be one, and those to versions that cannot be
/// are passed over.
pub fn consents_input(items: &[ConsentItem]) -> (r: Result<Vec<(String, i32)>, AppError>)
    ensures
        if items@.len() == 0 {
            error::refused_at(r, ProblemCode::InvalidInput, "/items"@)
        } else {
            r matches Ok(v) && consent_views(v@) == possible_consents(items@)
        },
{
    if items.len() == 0 {
        return Err(AppError::with_source(ProblemCode::InvalidInput, "/items"));
    }
    let mut out: Vec<(String, i32)> = Vec::new();
    let mut i: usize = 0;
    assert(consent_views(out@) == possible_consents(items@.subrange(0, 0)));
    while i < items.len()
        invariant
            i <= items@.len(),
            consent_views(out@) == possible_consents(items@.subrange(0, i as int)),
        decreases items.len() - i,
    {
        proof {
            let next = items@.subrange(0, i + 1);
            assert(next.drop_last() == items@.subrange(0, i as int));
            assert(next.last() == items@[i as int]);
        }
        let v: i64 = items[i].version;
        if i32::MIN as i64 <= v && v <= i32::MAX as i64 {
            let ghost before = out@;
            let pair = (items[i].kind.clone(), v as i32);
            out.push(pair);
            assert(consent_views(out@) == consent_views(before).push((pair.0@, pair.1)));
        }
        i = i + 1;
    }
    assert(items@.subrange(0, i as int) == items@);
    Ok(out)
}

/// The answer to consents that were given; a user who is gone gives none.
pub fn consents_recorded(live: Result<bool, DbFailure>) -> (r: Result<OkResponse, AppError>)
    ensures
        match live {
            Err(_) => error::refused(r, ProblemCode::Internal),
            Ok(true) => r == Ok::<_, AppError>(OkResponse { ok: true }),
            Ok(false) => error::refused(r, ProblemCode::AuthenticationRequired),
        },
{
    match live {
        Err(_) => Err(AppError::internal()),
        Ok(true) => Ok(OkResponse { ok: true }),
        Ok(false) => Err(AppError::from_code(ProblemCode::AuthenticationRequired)),
    }
}

/// A consent of a member.
#[derive(Debug)]
pub struct MemberConsentOutput {
    pub kind: String,
    pub version: i32,
    pub consented_at: Timestamp,
}

/// A consent of a member, as the store keeps it.
#[derive(Debug)]
pub struct MemberConsent {
    pub kind: String,
    pub version: i32,
    pub consented_at: Timestamp,
}

impl Answer for MemberConsent {
    type Out = MemberConsentOutput;

    open spec fn answered(&self, out: &MemberConsentOutput) -> bool {
        &&& out.kind@ == self.kind@
        &&& out.version == self.version
        &&& out.consented_at == self.consented_at
    }

    fn answer(&self) -> (r: MemberConsentOutput) {
        MemberConsentOutput {
            kind: self.kind.clone(),
            version: self.version,
            consented_at: self.consented_at,
        }
    }
}

/// The consents of a member, as the store keeps them.
#[derive(Debug)]
pub struct MemberConsents {
    pub user_id: Uuid,
    pub consents: Vec<MemberConsent>,
}

/// The consents of a member as they are answered.
#[derive(Debug)]
pub struct WorkspaceMemberConsentsOutput {
    pub user_id: String,
    pub consents: Vec<MemberConsentOutput>,
}

impl Answer for MemberConsents {
    type Out = WorkspaceMemberConsentsOutput;

    open spec fn answered(&self, out: &WorkspaceMemberConsentsOutput) -> bool {
        out.user_id@ == ids::uuid_text(self.user_id.0) && answer::all_answered(
            self.consents@,
            out.consents@,
        )
    }

    fn answer(&self) -> (r: WorkspaceMemberConsentsOutput) {
        WorkspaceMemberConsentsOutput {
            user_id: self.user_id.text(),
            consents: answer_all(self.consents.as_slice()),
        }
    }
}

/// The answer to a request for something that anyone may see.
#[derive(Debug)]
pub enum PublicReply {
    NotModified { headers: Vec<Header> },
    Found { headers: Vec<Header> },
}

/// The contents of a `PublicReply`.
pub enum PublicView {
    NotModified { headers: Seq<(Seq<char>, Seq<char>)> },
    Found { headers: Seq<(Seq<char>, Seq<char>)> },
}

impl View for PublicReply {
    type V = PublicView;

    open spec fn view(&self) -> PublicView {
        match self {
            PublicReply::NotModified { headers } => PublicView::NotModified {
                headers: header::header_views(headers@),
            },
            PublicReply::Found { headers } => PublicView::Found {
                headers: header::header_views(headers@),
            },
        }
    }
}

/// A client says that it has what bears this tag.
pub open spec fn client_has(if_none_match: Option<&[u8]>, tag: Seq<char>) -> bool {
    match header::readable(if_none_match) {
        Some(h) => header::names_tag(h, tag),
        None => false,
    }
}

/// The answer with the settings that anyone may see, in these bytes.
pub open spec fn instance_view(if_none_match: Option<&[u8]>, bytes: Seq<u8>) -> PublicView {
    let tag = digest::etag_of(digest::sha256(bytes));
    if client_has(if_none_match, tag) {
        PublicView::NotModified { headers: header::unchanged_headers(tag, public_cache_control()) }
    } else {
        let base = seq![
            ("content-type"@, "application/json"@),
            ("cache-control"@, public_cache_control()),
        ];
        PublicView::Found {
            headers: header::with_header(base, "etag"@, tag),
        }
    }
}

/// The answer with the settings that anyone may see. Its tag is the digest of the bytes.
pub fn instance_reply(if_none_match: Option<&[u8]>, bytes: &[u8]) -> (r: PublicReply)
    ensures
        r@ == instance_view(if_none_match, bytes@),
{
    let tag = strong_etag(bytes);
    if if_none_matches(if_none_match, tag.as_str()) {
        return PublicReply::NotModified {
            headers: not_modified(tag.as_str(), "public, max-age=60"),
        };
    }
    let mut headers = no_headers();
    put(&mut headers, "content-type", "application/json");
    put(&mut headers, "cache-control", "public, max-age=60");
    put_sendable(&mut headers, "etag", tag.as_str());
    proof {
        let base = seq![
            ("content-type"@, "application/json"@),
            ("cache-control"@, public_cache_control()),
        ];
        assert(header::header_views(headers@) == header::with_header(base, "etag"@, tag@));
    }
    PublicReply::Found { headers }
}

/// The tag of a logo or an icon, from its recorded digest.
pub open spec fn asset_tag(sha256: Seq<char>) -> Seq<char> {
    digest::etag_of(digest::sha256(vstd::utf8::encode_utf8(sha256)))
}

/// What is done for a request for a logo or an icon.
#[derive(Debug)]
pub enum AssetStep {
    NotModified { headers: Vec<Header> },
    /// The object is fetched.
    Fetch,
}

/// Whether a logo or an icon is fetched for a client: there has to be one, and the client not to
/// have it.
pub fn asset_step(asset: Option<&BrandingAsset>, if_none_match: Option<&[u8]>) -> (r: Result<
    AssetStep,
    AppError,
>)
    ensures
        match asset {
            None => error::refused(r, ProblemCode::NotFound),
            Some(a) => if client_has(if_none_match, asset_tag(a.sha256@)) {
                r matches Ok(AssetStep::NotModified { headers }) && header::header_views(headers@)
                    == header::unchanged_headers(asset_tag(a.sha256@), public_cache_control())
            } else {
                r matches Ok(AssetStep::Fetch)
            },
        },
{
    match asset {
        None => Err(AppError::from_code(ProblemCode::NotFound)),
        Some(a) => {
            let tag = strong_etag(a.sha256.as_str().as_bytes());
            if if_none_matches(if_none_match, tag.as_str()) {
                Ok(
                    AssetStep::NotModified {
                        headers: not_modified(tag.as_str(), "public, max-age=60"),
                    },
                )
            } else {
                Ok(AssetStep::Fetch)
            }
        },
    }
}

/// The last byte of an object that is to be read: it has to be there, and not too large.
pub fn asset_range(size: Result<Option<u64>, DbFailure>) -> (r: Result<u64, AppError>)
    ensures
        match size {
            Ok(Some(n)) => if 0 < n <= BRANDING_ASSET_MAX_BYTES {
                r == Ok::<_, AppError>((n - 1) as u64)
            } else {
                error::refused(r, ProblemCode::NotFound)
            },
            _ => error::refused(r, ProblemCode::NotFound),
        },
{
    match size {
        Ok(Some(n)) => if n > 0 && n <= BRANDING_ASSET_MAX_BYTES as u64 {
            Ok(n - 1)
        } else {
            Err(AppError::from_code(ProblemCode::NotFound))
        },
        _ => Err(AppError::from_code(ProblemCode::NotFound)),
    }
}

/// The headers that go before a logo or an icon: nothing in it is ever run as a document.
pub open spec fn asset_headers(asset: BrandingAsset) -> Seq<(Seq<char>, Seq<char>)> {
    header::with_header(
        header::with_header(
            seq![
                ("x-content-type-options"@, "nosniff"@),
                ("content-security-policy"@, "sandbox"@),
                ("cache-control"@, public_cache_control()),
            ],
            "content-type"@,
            asset.mime@,
        ),
        "etag"@,
        asset_tag(asset.sha256@),
    )
}

/// The answer with a logo or an icon: the bytes have to be those that were recorded.
pub fn asset_reply(asset: &BrandingAsset, read: Result<&[u8], DbFailure>) -> (r: Result<
    Vec<Header>,
    AppError,
>)
    ensures
        match read {
            Err(_) => error::refused(r, ProblemCode::NotFound),
            Ok(bytes) => if admin::records(*asset, bytes@) {
                r matches Ok(headers) && header::header_views(headers@) == asset_headers(*asset)
            } else {
                error::refused(r, ProblemCode::NotFound)
            },
        },
{
    let bytes = match read {
        Err(_) => {
            return Err(AppError::from_code(ProblemCode::NotFound));
        },
        Ok(b) => b,
    };
    let found = sha256_hex(bytes);
    if !same(found.as_str(), asset.sha256.as_str()) {
        return Err(AppError::from_code(ProblemCode::NotFound));
    }
    let tag = strong_etag(asset.sha256.as_str().as_bytes());
    let mut headers = no_headers();
    put(&mut headers, "x-content-type-options", "nosniff");
    put(&mut headers, "content-security-policy", "sandbox");
    put(&mut headers, "cache-control", "public, max-age=60");
    put_sendable(&mut headers, "content-type", asset.mime.as_str());
    put_sendable(&mut headers, "etag", tag.as_str());
    Ok(headers)
}

/// The consents that can be recorded are those to a version that can be, in the order in which they
/// were given.
pub proof fn law_possible_consents_keep_their_order(items: Seq<ConsentItem>)
    ensures
        possible_consents(items) == items.filter(
            |item: ConsentItem| i32::MIN <= item.version <= i32::MAX,
        ).map_values(|item: ConsentItem| (item.kind@, item.version as i32)),
    decreases items.len(),
{
    reveal(Seq::filter);
    let pred = |item: ConsentItem| i32::MIN <= item.version <= i32::MAX;
    let read = |item: ConsentItem| (item.kind@, item.version as i32);
    if items.len() == 0 {
        assert(possible_consents(items) =~= items.filter(pred).map_values(read));
    } else {
        law_possible_consents_keep_their_order(items.drop_last());
        assert(possible_consents(items) =~= items.filter(pred).map_values(read));
    }
}

/// A client is told that nothing has changed exactly where it names the tag of what there is now,
/// and else it is told that tag.
pub proof fn law_known_instance_is_not_sent(if_none_match: Option<&[u8]>, bytes: Seq<u8>)
    ensures
        ({
            let tag = digest::etag_of(digest::sha256(bytes));
            &&& instance_view(if_none_match, bytes) is NotModified <==> (header::readable(
                if_none_match,
            ) matches Some(h) && header::names_tag(h, tag))
            &&& header::sendable(tag) ==> match instance_view(if_none_match, bytes) {
                PublicView::NotModified { headers } => headers.contains(("etag"@, tag)),
                PublicView::Found { headers } => headers.contains(("etag"@, tag))
                    && headers.contains(("content-type"@, "application/json"@)),
            }
        }),
{
    let tag = digest::etag_of(digest::sha256(bytes));
    if header::sendable(tag) {
        match instance_view(if_none_match, bytes) {
            PublicView::NotModified { headers } => {
                assert(headers[0] == ("etag"@, tag));
            },
            PublicView::Found { headers } => {
                assert(headers[2] == ("etag"@, tag));
                assert(headers[0] == ("content-type"@, "application/json"@));
            },
        }
    }
}

/// Each value of a legal document is answered under the name that it is kept by.
pub proof fn law_legal_document_is_answered_as_kept(row: LegalDocument, out: LegalVersionMetaOutput)
    requires
        row.answered(&out),
    ensures
        out.kind@ == row.kind@,
        out.version == row.version,
        out.title@ == row.title@,
        out.effective_at == row.effective_at,
        out.required == row.required,
        out.published_at == row.published_at,
{
}

/// Each value of a member consent is answered under the name that it is kept by.
pub proof fn law_member_consent_is_answered_as_kept(row: MemberConsent, out: MemberConsentOutput)
    requires
        row.answered(&out),
    ensures
        out.kind@ == row.kind@,
        out.version == row.version,
        out.consented_at == row.consented_at,
{
}

/// An asset is sent only where its bytes are those that were recorded, and under its own type; one
/// whose bytes are others is answered as one that is not there.
pub proof fn law_only_recorded_bytes_are_sent(
    asset: &BrandingAsset,
    bytes: &[u8],
    r: Result<Vec<Header>, AppError>,
)
    requires
        call_ensures(asset_reply, (asset, Ok(bytes)), r),
    ensures
        r is Ok <==> asset.sha256@ == digest::hex_text(digest::sha256(bytes@)),
        r matches Ok(headers) && header::sendable(asset.mime@) ==> header::header_views(
            r->Ok_0@,
        ).contains(("content-type"@, asset.mime@)),
        r is Ok ==> header::header_views(r->Ok_0@).contains(("x-content-type-options"@, "nosniff"@))
            && header::header_views(r->Ok_0@).contains(("content-security-policy"@, "sandbox"@)),
{
    if r is Ok {
        let h = header::header_views(r->Ok_0@);
        assert(h == asset_headers(*asset));
        assert(h[0] == ("x-content-type-options"@, "nosniff"@));
        assert(h[1] == ("content-security-policy"@, "sandbox"@));
        if header::sendable(asset.mime@) {
            assert(h[3] == ("content-type"@, asset.mime@));
        }
    }
}

} // verus!
