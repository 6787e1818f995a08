//! The second factor of a sign-in.

use vstd::prelude::*;
use vstd::string::*;
use crate::cookie::SessionCookie;
use crate::digest;
use crate::digest::{hex_decode, hex_encode};
use crate::error;
use crate::error::{AppError, DbFailure, ErrorView, ProblemCode};
use crate::header;
use crate::header::Header;
use crate::ids;
use crate::ids::Uuid;
use crate::rate_limit;
use crate::rate_limit::{RateLimiter, WINDOW, charge};
use crate::routes::account::OkResponse;
use crate::routes::auth;
use crate::routes::auth::issue_session;
use crate::text;
use crate::text::{join2, trim};
use crate::time::Timestamp;

verus! {

/// What one address, and one user, may try within five minutes.
pub const MFA_VERIFY_PER_IP: u32 = 30;

pub const MFA_VERIFY_PER_USER: u32 = 5;

pub const MFA_VERIFY_WINDOW_SECS: u32 = 300;

pub const MFA_REAUTH_PER_USER: u32 = 5;

pub const MFA_ENABLE_PER_USER: u32 = 5;

/// A user without a password may set up a second factor only within so many seconds of signing
/// in.
pub const FRESH_AUTH_SECS: i64 = 600;

/// The fewest and the most characters of a code.
pub const CODE_MIN: usize = 6;

pub const CODE_MAX: usize = 16;

/// Charges an attempt of a user of one kind.
fn user_limit(limiter: &mut RateLimiter, prefix: &str, user_id: Uuid, max: u32, now: u64) -> (r:
    Result<(), AppError>)
    requires
        old(limiter).wf(),
    ensures
        final(limiter).wf(),
        rate_limit::charged_once(
            old(limiter)@,
            final(limiter)@,
            prefix@ + ids::uuid_text(user_id.0),
            max,
            WINDOW,
            now,
            error::told(r),
        ),
{
    let id = user_id.text();
    let key = join2(prefix, id.as_str());
    charge(limiter, key.as_str(), max, WINDOW, now)
}

/// Charges a user with a change that they confirm again.
pub fn reauth_limit(limiter: &mut RateLimiter, user_id: Uuid, now: u64) -> (r: Result<
    (),
    AppError,
>)
    requires
        old(limiter).wf(),
    ensures
        final(limiter).wf(),
        rate_limit::charged_once(
            old(limiter)@,
            final(limiter)@,
            "mfa-reauth:"@ + ids::uuid_text(user_id.0),
            MFA_REAUTH_PER_USER,
            WINDOW,
            now,
            error::told(r),
        ),
{
    user_limit(limiter, "mfa-reauth:", user_id, MFA_REAUTH_PER_USER, now)
}

/// Charges a user with an attempt to enable their second factor.
pub fn enable_limit(limiter: &mut RateLimiter, user_id: Uuid, now: u64) -> (r: Result<
    (),
    AppError,
>)
    requires
        old(limiter).wf(),
    ensures
        final(limiter).wf(),
        rate_limit::charged_once(
            old(limiter)@,
            final(limiter)@,
            "mfa-enable:"@ + ids::uuid_text(user_id.0),
            MFA_ENABLE_PER_USER,
            WINDOW,
            now,
            error::told(r),
        ),
{
    user_limit(limiter, "mfa-enable:", user_id, MFA_ENABLE_PER_USER, now)
}

/// Charges an address with an attempt to sign in with a second factor.
pub fn verify_limit(limiter: &mut RateLimiter, ip: &str, now: u64) -> (r: Result<(), AppError>)
    requires
        old(limiter).wf(),
    ensures
        final(limiter).wf(),
        rate_limit::charged_once(
            old(limiter)@,
            final(limiter)@,
            "mfa-verify-ip:"@ + ip@,
            MFA_VERIFY_PER_IP,
            WINDOW,
            now,
            error::told(r),
        ),
{
    let key = join2("mfa-verify-ip:", ip);
    charge(limiter, key.as_str(), MFA_VERIFY_PER_IP, WINDOW, now)
}

/// A code as it is entered.
pub open spec fn code_fits(raw: Seq<char>) -> bool {
    CODE_MIN <= text::trimmed(raw).len() <= CODE_MAX
}

/// A code, without white space around it.
pub fn mfa_code(raw: &str) -> (r: Result<String, AppError>)
    ensures
        if code_fits(raw@) {
            r matches Ok(code) && code@ == text::trimmed(raw@)
        } else {
            error::refused_at(r, ProblemCode::InvalidInput, "/code"@)
        },
{
    let code = trim(raw);
    let len: usize = code.unicode_len();
    if len < CODE_MIN || len > CODE_MAX {
        return Err(AppError::with_source(ProblemCode::InvalidInput, "/code"));
    }
    Ok(code.to_owned())
}

/// A password that is given holds something.
pub fn optional_password(raw: Option<String>) -> (r: Result<Option<String>, AppError>)
    ensures
        match raw {
            Some(p) if p@.len() == 0 => error::refused_at(
                r,
                ProblemCode::InvalidInput,
                "/currentPassword"@,
            ),
            _ => r == Ok::<_, AppError>(raw),
        },
{
    match raw {
        Some(p) => if p.as_str().unicode_len() == 0 {
            Err(AppError::with_source(ProblemCode::InvalidInput, "/currentPassword"))
        } else {
            Ok(Some(p))
        },
        None => Ok(None),
    }
}

/// Secrets can be kept here.
pub fn keys(configured: bool) -> (r: Result<(), AppError>)
    ensures
        r is Ok <==> configured,
        r is Err ==> error::refused(r, ProblemCode::EncryptionUnavailable),
{
    if configured {
        Ok(())
    } else {
        Err(AppError::from_code(ProblemCode::EncryptionUnavailable))
    }
}

/// The secret of a second factor: `opened` is the text that was sealed, none where it does not
/// open.
pub fn open_secret(configured: bool, opened: Option<&str>) -> (r: Result<Vec<u8>, AppError>)
    ensures
        if !configured {
            error::refused(r, ProblemCode::EncryptionUnavailable)
        } else {
            match opened {
                None => error::refused(r, ProblemCode::Internal),
                Some(s) => match digest::hex_bytes(s@) {
                    Some(bytes) => r matches Ok(secret) && secret@ == bytes,
                    None => error::refused(r, ProblemCode::Internal),
                },
            }
        },
{
    if let Err(e) = keys(configured) {
        return Err(e);
    }
    match opened {
        None => Err(AppError::internal()),
        Some(s) => match hex_decode(s) {
            Some(secret) => Ok(secret),
            None => Err(AppError::internal()),
        },
    }
}

/// The text that is sealed to keep the secret of a second factor.
pub fn secret_text(raw: &[u8]) -> (r: String)
    ensures
        r@ == digest::hex_text(raw@),
{
    hex_encode(raw)
}

/// A secret that was kept is the one that is opened.
pub proof fn law_kept_secret_opens(raw: Seq<u8>)
    ensures
        digest::hex_bytes(digest::hex_text(raw)) == Some(raw),
{
    digest::law_hex_round_trip(raw);
}

/// Which second factor a code is.
#[derive(Debug)]
pub enum SecondFactor {
    /// The code of an authenticator at this step.
    Totp(i64),
    /// A recovery code with this digest.
    Recovery(String),
}

/// How a code reads.
#[derive(Debug)]
pub enum CodeReading {
    /// It has the form of an authenticator's: the step that it matches, if it does, or why that
    /// could not be seen.
    Authenticator(Result<Option<i64>, AppError>),
    /// It has another form: the code in normal form, and its digest.
    Other { normalized: String, digest: String },
}

/// Which second factor a code is, if it is one: a recovery code has `recovery_len` bytes.
pub fn check_code(reading: CodeReading, recovery_len: usize) -> (r: Result<
    Option<SecondFactor>,
    AppError,
>)
    ensures
        match reading {
            CodeReading::Authenticator(Err(e)) => r matches Err(x) && x@ == e@,
            CodeReading::Authenticator(Ok(None)) => r == Ok::<Option<SecondFactor>, AppError>(None),
            CodeReading::Authenticator(Ok(Some(step))) => r == Ok::<_, AppError>(
                Some(SecondFactor::Totp(step)),
            ),
            CodeReading::Other { normalized, digest } => r == Ok::<_, AppError>(
                if vstd::utf8::encode_utf8(normalized@).len() == recovery_len {
                    Some(SecondFactor::Recovery(digest))
                } else {
                    None
                },
            ),
        },
{
    match reading {
        CodeReading::Authenticator(matched) => match matched {
            Err(e) => Err(e),
            Ok(None) => Ok(None),
            Ok(Some(step)) => Ok(Some(SecondFactor::Totp(step))),
        },
        CodeReading::Other { normalized, digest } => {
            if normalized.as_str().as_bytes().len() != recovery_len {
                return Ok(None);
            }
            Ok(Some(SecondFactor::Recovery(digest)))
        },
    }
}

/// What a password that is entered again says.
#[derive(Clone, Copy, Debug, PartialEq, Eq, Structural)]
pub enum PasswordCheck {
    Valid,
    Invalid,
    /// The user has none.
    Absent,
}

/// What a password that is entered again says. `stored` is whether the user has one; `verified`,
/// whether the one that was entered is it.
pub fn confirm_password(stored: Result<bool, DbFailure>, entered: bool, verified: bool) -> (r:
    Result<PasswordCheck, AppError>)
    ensures
        match stored {
            Err(_) => error::refused(r, ProblemCode::Internal),
            Ok(false) => r == Ok::<_, AppError>(PasswordCheck::Absent),
            Ok(true) => r == Ok::<_, AppError>(
                if entered && verified {
                    PasswordCheck::Valid
                } else {
                    PasswordCheck::Invalid
                },
            ),
        },
{
    match stored {
        Err(_) => Err(AppError::internal()),
        Ok(false) => Ok(PasswordCheck::Absent),
        Ok(true) => if entered && verified {
            Ok(PasswordCheck::Valid)
        } else {
            Ok(PasswordCheck::Invalid)
        },
    }
}

/// The second factor of a user, as the store keeps it.
#[derive(Debug)]
pub struct MfaRow {
    pub user_id: Uuid,
    pub totp_secret: String,
    pub enabled_at: Option<Timestamp>,
    pub recovery_hashes: Vec<String>,
}

/// Whether a user has a second factor, and how many recovery codes they have left.
#[derive(Clone, Copy, Debug, PartialEq, Eq, Structural)]
pub struct MfaStatusOutput {
    pub enabled: bool,
    pub recovery_codes_left: u64,
}

/// A user has a second factor that is in force.
pub open spec fn in_force(row: Option<MfaRow>) -> bool {
    row matches Some(r) && r.enabled_at is Some
}

/// The answer whether a user has a second factor.
pub fn status(row: Result<Option<MfaRow>, DbFailure>) -> (r: Result<MfaStatusOutput, AppError>)
    ensures
        match row {
            Err(_) => error::refused(r, ProblemCode::Internal),
            Ok(row) => r == Ok::<_, AppError>(
                MfaStatusOutput {
                    enabled: in_force(row),
                    recovery_codes_left: if in_force(row) {
                        row->Some_0.recovery_hashes@.len() as u64
                    } else {
                        0
                    },
                },
            ),
        },
{
    match row {
        Err(_) => Err(AppError::internal()),
        Ok(Some(row)) => if row.enabled_at.is_some() {
            let left: u64 = row.recovery_hashes.len() as u64;
            Ok(MfaStatusOutput { enabled: true, recovery_codes_left: left })
        } else {
            Ok(MfaStatusOutput { enabled: false, recovery_codes_left: 0 })
        },
        Ok(None) => Ok(MfaStatusOutput { enabled: false, recovery_codes_left: 0 }),
    }
}

/// A session that began at `created` is still fresh at `now`: no more whole seconds than
/// `FRESH_AUTH_SECS` have passed.
pub open spec fn fresh(created: Option<Timestamp>, now: Timestamp) -> bool {
    created matches Some(at) && now@ - at@ < (FRESH_AUTH_SECS + 1) * 1_000_000
}

/// Whether a session is still fresh.
pub fn session_created_recently(created: Result<Option<Timestamp>, DbFailure>, now: Timestamp) -> (r:
    Result<bool, AppError>)
    ensures
        match created {
            Err(_) => error::refused(r, ProblemCode::Internal),
            Ok(c) => r == Ok::<_, AppError>(fresh(c, now)),
        },
{
    match created {
        Err(_) => Err(AppError::internal()),
        Ok(None) => Ok(false),
        Ok(Some(at)) => {
            let from: i128 = at.micros() as i128;
            let to: i128 = now.micros() as i128;
            Ok(to - from < (FRESH_AUTH_SECS as i128 + 1) * 1_000_000)
        },
    }
}

/// Whether a user may set up a second factor: with a password they have to enter it again,
/// without one they have to have signed in just before.
pub fn setup_admitted(has_password: bool, fresh: Result<bool, AppError>) -> (r: Result<
    (),
    AppError,
>)
    ensures
        if has_password {
            r is Ok
        } else {
            match fresh {
                Err(e) => r matches Err(x) && x@ == e@,
                Ok(true) => r is Ok,
                Ok(false) => error::refused(r, ProblemCode::MfaReauthRequired),
            }
        },
{
    if has_password {
        return Ok(());
    }
    match fresh {
        Err(e) => Err(e),
        Ok(true) => Ok(()),
        Ok(false) => Err(AppError::from_code(ProblemCode::MfaReauthRequired)),
    }
}

/// A second factor is not set up over a wrong password, nor where secrets cannot be kept.
pub fn setup_confirmed(check: Result<PasswordCheck, AppError>, configured: bool) -> (r: Result<
    (),
    AppError,
>)
    ensures
        match check {
            Err(e) => r matches Err(x) && x@ == e@,
            Ok(PasswordCheck::Invalid) => error::refused(r, ProblemCode::MfaPasswordInvalid),
            Ok(_) => if configured {
                r is Ok
            } else {
                error::refused(r, ProblemCode::EncryptionUnavailable)
            },
        },
{
    match check {
        Err(e) => Err(e),
        Ok(PasswordCheck::Invalid) => Err(AppError::from_code(ProblemCode::MfaPasswordInvalid)),
        Ok(_) => keys(configured),
    }
}

/// What became of a second factor that was set up.
#[derive(Clone, Copy, Debug, PartialEq, Eq, Structural)]
pub enum SetupOutcome {
    Stored,
    AlreadyEnabled,
    SessionGone,
}

/// What the setup of a second factor came to.
pub fn setup_stored(outcome: Result<SetupOutcome, DbFailure>) -> (r: Result<(), AppError>)
    ensures
        match outcome {
            Err(_) => error::refused(r, ProblemCode::Internal),
            Ok(SetupOutcome::Stored) => r is Ok,
            Ok(SetupOutcome::AlreadyEnabled) => error::refused(r, ProblemCode::MfaAlreadyEnabled),
            Ok(SetupOutcome::SessionGone) => error::refused(
                r,
                ProblemCode::AuthenticationRequired,
            ),
        },
{
    match outcome {
        Err(_) => Err(AppError::internal()),
        Ok(SetupOutcome::Stored) => Ok(()),
        Ok(SetupOutcome::AlreadyEnabled) => Err(
            AppError::from_code(ProblemCode::MfaAlreadyEnabled),
        ),
        Ok(SetupOutcome::SessionGone) => Err(
            AppError::from_code(ProblemCode::AuthenticationRequired),
        ),
    }
}

/// A second factor that was set up and is not in force yet.
pub fn awaiting(row: Result<Option<MfaRow>, DbFailure>) -> (r: Result<MfaRow, AppError>)
    ensures
        match row {
            Err(_) => error::refused(r, ProblemCode::Internal),
            Ok(Some(m)) if m.enabled_at is None => r == Ok::<_, AppError>(m),
            Ok(_) => error::refused(r, ProblemCode::MfaNotSetup),
        },
{
    match row {
        Err(_) => Err(AppError::internal()),
        Ok(Some(m)) => if m.enabled_at.is_none() {
            Ok(m)
        } else {
            Err(AppError::from_code(ProblemCode::MfaNotSetup))
        },
        Ok(None) => Err(AppError::from_code(ProblemCode::MfaNotSetup)),
    }
}

/// A second factor that is in force; `otherwise` is what is told where there is none.
pub fn enabled_row(row: Result<Option<MfaRow>, DbFailure>, otherwise: ProblemCode) -> (r: Result<
    MfaRow,
    AppError,
>)
    ensures
        match row {
            Err(_) => error::refused(r, ProblemCode::Internal),
            Ok(row) => if in_force(row) {
                r matches Ok(m) && row == Some(m)
            } else {
                error::refused(r, otherwise)
            },
        },
{
    match row {
        Err(_) => Err(AppError::internal()),
        Ok(Some(m)) => if m.enabled_at.is_some() {
            Ok(m)
        } else {
            Err(AppError::from_code(otherwise))
        },
        Ok(None) => Err(AppError::from_code(otherwise)),
    }
}

/// The step at which a code was right.
pub fn matched_step(step: Option<i64>) -> (r: Result<i64, AppError>)
    ensures
        match step {
            Some(s) => r == Ok::<_, AppError>(s),
            None => error::refused(r, ProblemCode::MfaCodeInvalid),
        },
{
    match step {
        Some(s) => Ok(s),
        None => Err(AppError::from_code(ProblemCode::MfaCodeInvalid)),
    }
}

/// What became of a second factor that was enabled or disabled.
#[derive(Clone, Copy, Debug, PartialEq, Eq, Structural)]
pub enum SwitchOutcome {
    Done,
    /// There was nothing to enable or disable.
    Nothing,
    SessionGone,
}

/// The answer to a second factor that was enabled.
pub fn enable_reply(outcome: Result<SwitchOutcome, DbFailure>) -> (r: Result<OkResponse, AppError>)
    ensures
        match outcome {
            Err(_) => error::refused(r, ProblemCode::Internal),
            Ok(SwitchOutcome::Done) => r == Ok::<_, AppError>(OkResponse { ok: true }),
            Ok(SwitchOutcome::Nothing) => error::refused(r, ProblemCode::MfaNotSetup),
            Ok(SwitchOutcome::SessionGone) => error::refused(
                r,
                ProblemCode::AuthenticationRequired,
            ),
        },
{
    match outcome {
        Err(_) => Err(AppError::internal()),
        Ok(SwitchOutcome::Done) => Ok(OkResponse { ok: true }),
        Ok(SwitchOutcome::Nothing) => Err(AppError::from_code(ProblemCode::MfaNotSetup)),
        Ok(SwitchOutcome::SessionGone) => Err(
            AppError::from_code(ProblemCode::AuthenticationRequired),
        ),
    }
}

/// The answer to a second factor that was disabled.
pub fn disable_reply(outcome: Result<SwitchOutcome, DbFailure>) -> (r: Result<
    OkResponse,
    AppError,
>)
    ensures
        match outcome {
            Err(_) => error::refused(r, ProblemCode::Internal),
            Ok(SwitchOutcome::Done) => r == Ok::<_, AppError>(OkResponse { ok: true }),
            Ok(SwitchOutcome::Nothing) => error::refused(r, ProblemCode::MfaNotEnabled),
            Ok(SwitchOutcome::SessionGone) => error::refused(
                r,
                ProblemCode::AuthenticationRequired,
            ),
        },
{
    match outcome {
        Err(_) => Err(AppError::internal()),
        Ok(SwitchOutcome::Done) => Ok(OkResponse { ok: true }),
        Ok(SwitchOutcome::Nothing) => Err(AppError::from_code(ProblemCode::MfaNotEnabled)),
        Ok(SwitchOutcome::SessionGone) => Err(
            AppError::from_code(ProblemCode::AuthenticationRequired),
        ),
    }
}

/// How a second factor is disabled: with the password or a code.
#[derive(Debug)]
pub struct DisableInput {
    pub current_password: Option<String>,
    pub code: Option<String>,
}

/// The problem of a request to disable a second factor, if it has one.
pub open spec fn disable_problem(password: Option<String>, code: Option<String>) -> Option<
    ErrorView,
> {
    if password matches Some(p) && p@.len() == 0 {
        Some(error::problem_at(ProblemCode::InvalidInput, "/currentPassword"@))
    } else if code matches Some(c) && !code_fits(c@) {
        Some(error::problem_at(ProblemCode::InvalidInput, "/code"@))
    } else if password is None && code is None {
        Some(error::problem_at(ProblemCode::InvalidInput, "/"@))
    } else {
        None
    }
}

/// Reads a request to disable a second factor.
pub fn disable_input(password: Option<String>, code: Option<String>) -> (r: Result<
    DisableInput,
    AppError,
>)
    ensures
        match r {
            Err(e) => disable_problem(password, code) == Some(e@),
            Ok(input) => {
                &&& disable_problem(password, code) is None
                &&& input.current_password == password
                &&& match code {
                    Some(c) => input.code matches Some(t) && t@ == text::trimmed(c@),
                    None => input.code is None,
                }
            },
        },
{
    let has_code: bool = code.is_some();
    let current_password = match optional_password(password) {
        Err(e) => {
            return Err(e);
        },
        Ok(p) => p,
    };
    let code = match code {
        Some(c) => match mfa_code(c.as_str()) {
            Err(e) => {
                return Err(e);
            },
            Ok(t) => Some(t),
        },
        None => None,
    };
    if current_password.is_none() && !has_code {
        return Err(AppError::with_source(ProblemCode::InvalidInput, "/"));
    }
    Ok(DisableInput { current_password, code })
}

/// Whether a user confirmed that their second factor is disabled: with the password, or, where
/// they have none, with a code that they could claim.
pub open spec fn disable_allowed(check: PasswordCheck, claimed: bool) -> bool {
    check == PasswordCheck::Valid || (check == PasswordCheck::Absent && claimed)
}

/// Whether a user confirmed that their second factor is disabled. `claimed` is whether the code
/// was theirs and had not been used.
pub fn disable_confirmed(
    check: Result<PasswordCheck, AppError>,
    claimed: Result<bool, AppError>,
) -> (r: Result<(), AppError>)
    ensures
        match (check, claimed) {
            (Err(e), _) => r matches Err(x) && x@ == e@,
            (Ok(PasswordCheck::Absent), Err(e)) => r matches Err(x) && x@ == e@,
            (Ok(c), Ok(ok)) => if disable_allowed(c, ok) {
                r is Ok
            } else {
                error::refused(r, ProblemCode::MfaConfirmInvalid)
            },
            (Ok(PasswordCheck::Valid), Err(_)) => r is Ok,
            (Ok(PasswordCheck::Invalid), Err(_)) => error::refused(
                r,
                ProblemCode::MfaConfirmInvalid,
            ),
        },
{
    match check {
        Err(e) => Err(e),
        Ok(PasswordCheck::Valid) => Ok(()),
        Ok(PasswordCheck::Invalid) => Err(AppError::from_code(ProblemCode::MfaConfirmInvalid)),
        Ok(PasswordCheck::Absent) => match claimed {
            Err(e) => Err(e),
            Ok(true) => Ok(()),
            Ok(false) => Err(AppError::from_code(ProblemCode::MfaConfirmInvalid)),
        },
    }
}

/// Reads an attempt to sign in with a second factor: the token of the first one, and a code.
pub fn verify_input(mfa_token: String, code: &str) -> (r: Result<(String, String), AppError>)
    ensures
        if mfa_token@.len() == 0 {
            error::refused_at(r, ProblemCode::InvalidInput, "/mfaToken"@)
        } else if !code_fits(code@) {
            error::refused_at(r, ProblemCode::InvalidInput, "/code"@)
        } else {
            r matches Ok(input) && input.0 == mfa_token && input.1@ == text::trimmed(code@)
        },
{
    if mfa_token.as_str().unicode_len() == 0 {
        return Err(AppError::with_source(ProblemCode::InvalidInput, "/mfaToken"));
    }
    match mfa_code(code) {
        Err(e) => Err(e),
        Ok(c) => Ok((mfa_token, c)),
    }
}

/// What a step of a sign-in gave; without it the sign-in is refused, and nothing is said of why.
pub fn challenge<T>(found: Result<Option<T>, DbFailure>) -> (r: Result<T, AppError>)
    ensures
        match found {
            Err(_) => error::refused(r, ProblemCode::Internal),
            Ok(None) => error::refused(r, ProblemCode::MfaInvalid),
            Ok(Some(t)) => r == Ok::<T, AppError>(t),
        },
{
    match found {
        Err(_) => Err(AppError::internal()),
        Ok(None) => Err(AppError::from_code(ProblemCode::MfaInvalid)),
        Ok(Some(t)) => Ok(t),
    }
}

/// Whether a user has attempts left. `wait` is the seconds until they have, where they have none.
pub fn attempt_allowed(wait: Result<Option<u32>, DbFailure>) -> (r: Result<(), AppError>)
    ensures
        match wait {
            Err(_) => error::refused(r, ProblemCode::Internal),
            Ok(Some(secs)) => r matches Err(e) && e@ == error::too_many(secs),
            Ok(None) => r is Ok,
        },
{
    match wait {
        Err(_) => Err(AppError::internal()),
        Ok(Some(secs)) => Err(AppError::rate_limited(secs)),
        Ok(None) => Ok(()),
    }
}

/// The second factor of a sign-in, where the code is one.
pub fn verified_factor(factor: Result<Option<SecondFactor>, AppError>) -> (r: Result<
    SecondFactor,
    AppError,
>)
    ensures
        match factor {
            Err(e) => r matches Err(x) && x@ == e@,
            Ok(None) => error::refused(r, ProblemCode::MfaInvalid),
            Ok(Some(f)) => r == Ok::<_, AppError>(f),
        },
{
    match factor {
        Err(e) => Err(e),
        Ok(None) => Err(AppError::from_code(ProblemCode::MfaInvalid)),
        Ok(Some(f)) => Ok(f),
    }
}

/// The answer to a sign-in with a second factor: the user's id and a session.
pub fn verify_reply(
    issued: Result<Option<(Uuid, String)>, DbFailure>,
    settings: &SessionCookie,
    secure: bool,
) -> (r: Result<(String, Vec<Header>), AppError>)
    ensures
        match issued {
            Err(_) => error::refused(r, ProblemCode::Internal),
            Ok(None) => error::refused(r, ProblemCode::MfaInvalid),
            Ok(Some((user_id, token))) => r matches Ok(reply) && reply.0@ == ids::uuid_text(
                user_id.0,
            ) && header::header_views(reply.1@) == auth::session_headers(
                *settings,
                secure,
                token@,
            ),
        },
{
    match challenge(issued) {
        Err(e) => Err(e),
        Ok(i) => {
            let headers = issue_session(settings, secure, i.1.as_str());
            Ok((i.0.text(), headers))
        },
    }
}

/// A second factor is given up only by one who confirms it: with the password where there is one,
/// and with a code where there is none.
pub proof fn law_second_factor_is_given_up_by_its_owner(
    check: PasswordCheck,
    claimed: Result<bool, AppError>,
    r: Result<(), AppError>,
)
    requires
        call_ensures(disable_confirmed, (Ok(check), claimed), r),
    ensures
        r is Ok <==> check == PasswordCheck::Valid || (check == PasswordCheck::Absent && claimed
            == Ok::<bool, AppError>(true)),
{
}

/// To give up a second factor takes a password or a code, and what was given is what is checked.
pub proof fn law_something_is_given_to_confirm(
    password: Option<String>,
    code: Option<String>,
    r: Result<DisableInput, AppError>,
)
    requires
        call_ensures(disable_input, (password, code), r),
        r is Ok,
    ensures
        password is Some || code is Some,
        password matches Some(p) ==> p@.len() > 0,
        r->Ok_0.current_password == password,
        r->Ok_0.code is Some <==> code is Some,
        code matches Some(c) ==> r->Ok_0.code->0@ == text::trimmed(c@) && CODE_MIN
            <= text::trimmed(c@).len() <= CODE_MAX,
{
}

/// What is told of a second factor is whether it is in force and how many codes are left of one
/// that is.
pub proof fn law_status_tells_what_is_in_force(
    row: Option<MfaRow>,
    r: Result<MfaStatusOutput, AppError>,
)
    requires
        call_ensures(status, (Ok(row),), r),
    ensures
        r is Ok,
        r->Ok_0.enabled <==> (row matches Some(m) && m.enabled_at is Some),
        r->Ok_0.enabled ==> r->Ok_0.recovery_codes_left == row->0.recovery_hashes@.len(),
        !r->Ok_0.enabled ==> r->Ok_0.recovery_codes_left == 0,
{
    if row is Some {
        assert(row->0.recovery_hashes.len() == row->0.recovery_hashes@.len());
    }
}

/// What one user is told by this limit does not depend on the requests of another: `reauth_limit`
/// answers `b` alike behind a request of `a` and without it.
pub proof fn law_reauth_limit_is_one_for_each_user(
    first: &mut RateLimiter,
    second: &mut RateLimiter,
    alone: &mut RateLimiter,
    a: Uuid,
    b: Uuid,
    now: u64,
    later: u64,
    told_a: Result<(), AppError>,
    told_b: Result<(), AppError>,
    told_alone: Result<(), AppError>,
)
    requires
        first.wf(),
        second.wf(),
        alone.wf(),
        a != b,
        old(first)@.dom().len() < rate_limit::MAX_KEYS,
        old(second)@ == final(first)@,
        old(alone)@ == old(first)@,
        call_ensures(reauth_limit, (first, a, now), told_a),
        call_ensures(reauth_limit, (second, b, later), told_b),
        call_ensures(reauth_limit, (alone, b, later), told_alone),
    ensures
        told_b is Ok <==> told_alone is Ok,
        error::told(told_b) == error::told(told_alone),
{
    ids::law_uuid_texts_are_apart(a.0, b.0);
    rate_limit::lemma_keys_apart("mfa-reauth:"@, ids::uuid_text(a.0), ids::uuid_text(b.0));
    rate_limit::lemma_other_keys_stay(
        old(first)@,
        final(first)@,
        "mfa-reauth:"@ + ids::uuid_text(a.0),
        MFA_REAUTH_PER_USER,
        WINDOW,
        now,
        "mfa-reauth:"@ + ids::uuid_text(b.0),
    );
}

/// What one user is told by this limit does not depend on the requests of another: `enable_limit`
/// answers `b` alike behind a request of `a` and without it.
pub proof fn law_enable_limit_is_one_for_each_user(
    first: &mut RateLimiter,
    second: &mut RateLimiter,
    alone: &mut RateLimiter,
    a: Uuid,
    b: Uuid,
    now: u64,
    later: u64,
    told_a: Result<(), AppError>,
    told_b: Result<(), AppError>,
    told_alone: Result<(), AppError>,
)
    requires
        first.wf(),
        second.wf(),
        alone.wf(),
        a != b,
        old(first)@.dom().len() < rate_limit::MAX_KEYS,
        old(second)@ == final(first)@,
        old(alone)@ == old(first)@,
        call_ensures(enable_limit, (first, a, now), told_a),
        call_ensures(enable_limit, (second, b, later), told_b),
        call_ensures(enable_limit, (alone, b, later), told_alone),
    ensures
        told_b is Ok <==> told_alone is Ok,
        error::told(told_b) == error::told(told_alone),
{
    ids::law_uuid_texts_are_apart(a.0, b.0);
    rate_limit::lemma_keys_apart("mfa-enable:"@, ids::uuid_text(a.0), ids::uuid_text(b.0));
    rate_limit::lemma_other_keys_stay(
        old(first)@,
        final(first)@,
        "mfa-enable:"@ + ids::uuid_text(a.0),
        MFA_ENABLE_PER_USER,
        WINDOW,
        now,
        "mfa-enable:"@ + ids::uuid_text(b.0),
    );
}

/// What one address is told by this limit does not depend on the requests of another: `verify_limit`
/// answers `b` alike behind a request of `a` and without it.
pub proof fn law_verify_limit_is_one_for_each_address(
    first: &mut RateLimiter,
    second: &mut RateLimiter,
    alone: &mut RateLimiter,
    a: &str,
    b: &str,
    now: u64,
    later: u64,
    told_a: Result<(), AppError>,
    told_b: Result<(), AppError>,
    told_alone: Result<(), AppError>,
)
    requires
        first.wf(),
        second.wf(),
        alone.wf(),
        a@ != b@,
        old(first)@.dom().len() < rate_limit::MAX_KEYS,
        old(second)@ == final(first)@,
        old(alone)@ == old(first)@,
        call_ensures(verify_limit, (first, a, now), told_a),
        call_ensures(verify_limit, (second, b, later), told_b),
        call_ensures(verify_limit, (alone, b, later), told_alone),
    ensures
        told_b is Ok <==> told_alone is Ok,
        error::told(told_b) == error::told(told_alone),
{
    rate_limit::lemma_keys_apart("mfa-verify-ip:"@, a@, b@);
    rate_limit::lemma_other_keys_stay(
        old(first)@,
        final(first)@,
        "mfa-verify-ip:"@ + a@,
        MFA_VERIFY_PER_IP,
        WINDOW,
        now,
        "mfa-verify-ip:"@ + b@,
    );
}

/// A password counts only where there is one and it was entered and found right; a second factor is
/// not set up behind a wrong one.
pub proof fn law_wrong_password_sets_nothing_up(
    stored: bool,
    entered: bool,
    verified: bool,
    check: Result<PasswordCheck, AppError>,
    r: Result<(), AppError>,
)
    requires
        call_ensures(confirm_password, (Ok(stored), entered, verified), check),
        call_ensures(setup_confirmed, (check, true), r),
    ensures
        check is Ok,
        check->Ok_0 == PasswordCheck::Valid <==> stored && entered && verified,
        check->Ok_0 == PasswordCheck::Absent <==> !stored,
        r is Ok <==> !stored || (entered && verified),
{
}

/// A code is one of an authenticator where it was read as such, else a recovery code exactly where
/// it has the length of one, and then the one that was entered.
pub proof fn law_code_counts_as_what_it_is(
    normalized: String,
    digest: String,
    recovery_len: usize,
    r: Result<Option<SecondFactor>, AppError>,
)
    requires
        call_ensures(
            check_code,
            (CodeReading::Other { normalized, digest }, recovery_len),
            r,
        ),
    ensures
        r is Ok,
        r->Ok_0 is Some <==> vstd::utf8::encode_utf8(normalized@).len() == recovery_len,
        r->Ok_0 matches Some(f) ==> f == SecondFactor::Recovery(digest),
{
}

/// A session is fresh for the time that was set and no longer; one whose start is not known is not.
pub proof fn law_session_stays_fresh_for_a_while(created: Timestamp, now: Timestamp, later: Timestamp)
    requires
        now@ <= later@,
    ensures
        fresh(Some(created), later) ==> fresh(Some(created), now),
        now@ - created@ <= FRESH_AUTH_SECS * 1_000_000 ==> fresh(Some(created), now),
        now@ - created@ >= (FRESH_AUTH_SECS + 1) * 1_000_000 ==> !fresh(Some(created), now),
        !fresh(None, now),
{
}

} // verus!
