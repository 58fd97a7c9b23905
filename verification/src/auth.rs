//! Accounts: the registration rules, signing in, password changes, email
//! verification tokens and captcha answers.
use vstd::prelude::*;
use vstd::string::*;
use crate::error::{ServiceError, bad_request, conflict, forbidden, not_found};
use crate::names::{byte_len, valid_username, utf8_length, only_name_chars};
use crate::text::{lowercase, owned, str_equal, to_lowercase};
use argon2::password_hash::rand_core::OsRng;
use argon2::password_hash::{PasswordHash, PasswordHasher, PasswordVerifier, SaltString};
use argon2::Argon2;

verus! {

/// Whether `hash` parses as a PHC password-hash string
/// (`PasswordHash::new(hash)` succeeds).
pub uninterp spec fn phc_parses(hash: Seq<char>) -> bool;

/// The text of the error `PasswordHash::new(hash)` gives for a string that
/// does not parse.
pub uninterp spec fn phc_error(hash: Seq<char>) -> Seq<char>;

/// Whether Argon2, with the parameters recorded in the PHC string `hash`,
/// accepts `password` (`Argon2::default().verify_password`).
pub uninterp spec fn argon2_accepts(password: Seq<char>, hash: Seq<char>) -> bool;

/// Checks whether a stored hash string is a well-formed PHC string.
/// Calls `PasswordHash::new`; the claim is that success is the named
/// property of the string, and that a failure carries the error's text,
/// the named text for the string.
#[verifier::external_body]
fn parse_password_hash(hash: &str) -> (r: Result<(), String>)
    ensures
        r is Ok <==> phc_parses(hash@),
        r matches Err(t) ==> t@ == phc_error(hash@),
{
    match PasswordHash::new(hash) {
        Ok(_) => Ok(()),
        Err(e) => Err(e.to_string()),
    }
}

/// Checks a password against a PHC hash string with Argon2.
/// Calls `PasswordVerifier::verify_password` on `Argon2::default()`, after
/// converting the string with `PasswordHash::new`. The claim is that, for a
/// string that parses, acceptance is the named property of the password and
/// the string.
#[verifier::external_body]
fn verify_argon2(password: &str, hash: &str) -> (ok: bool)
    requires
        phc_parses(hash@),
    ensures
        ok == argon2_accepts(password@, hash@),
{
    match PasswordHash::new(hash) {
        Ok(parsed) => Argon2::default().verify_password(password.as_bytes(), &parsed).is_ok(),
        Err(_) => false,
    }
}

/// Hashes a password with Argon2 and a fresh random salt.
/// Calls `PasswordHasher::hash_password` on `Argon2::default()` with a salt
/// from `SaltString::generate(&mut OsRng)`. The salt, and so the string, is
/// random. The claims are what the crate's source and documented example
/// show: the generated salt is always valid, so the call fails exactly for a
/// password longer than `u32::MAX` bytes (`MAX_PWD_LEN`); a string that
/// comes back is the PHC form of an Argon2id hash (`$argon2id$...`), parses,
/// and Argon2 accepts the password against it. The error text of a failure
/// is left unsaid.
#[verifier::external_body]
fn hash_argon2(password: &str) -> (r: Result<String, String>)
    ensures
        r is Ok <==> byte_len(password@) <= u32::MAX,
        r matches Ok(h) ==> "$argon2id$"@.is_prefix_of(h@) && phc_parses(h@) && argon2_accepts(password@, h@),
{
    let salt = SaltString::generate(&mut OsRng);
    match Argon2::default().hash_password(password.as_bytes(), &salt) {
        Ok(h) => Ok(h.to_string()),
        Err(e) => Err(e.to_string()),
    }
}

/// A fresh hash of a password, or an internal error whose message starts
/// with `context`.
pub(crate) fn hash_or_internal(password: &str, context: &str) -> (r: Result<String, ServiceError>)
    ensures
        r is Ok <==> byte_len(password@) <= u32::MAX,
        r matches Ok(h) ==> fresh_hash_of(password@, h@),
        r matches Err(e) ==> e matches ServiceError::Internal(m) && context@.is_prefix_of(m@),
{
    match hash_argon2(password) {
        Ok(h) => Ok(h),
        Err(msg) => {
            let mut m = owned(context);
            m.append(msg.as_str());
            Err(ServiceError::Internal(m))
        }
    }
}

/// What signing in needs to know of an account.
#[derive(Debug, Clone, PartialEq, Eq)]
pub struct LoginAccount {
    pub is_active: bool,
    pub password_hash: String,
}

/// A stored email verification token; `expires_at` in nanoseconds since
/// the Unix epoch.
#[derive(Debug, Clone, PartialEq, Eq)]
pub struct EmailTokenRecord {
    pub user_id: u128,
    pub used: bool,
    pub expires_at: i128,
}

/// A stored captcha challenge; `expires_at` in nanoseconds since the Unix
/// epoch.
#[derive(Debug, Clone, PartialEq, Eq)]
pub struct CaptchaRecord {
    pub answer: String,
    pub expires_at: i128,
}

/// What to do with a captcha challenge after an answer came in: whether to
/// delete the challenge, and whether the answer is right.
#[derive(Debug, Clone, PartialEq, Eq)]
pub struct CaptchaCheck {
    pub consume: bool,
    pub valid: bool,
}

/// Nanoseconds in an hour.
pub const NANOS_PER_HOUR: i128 = 3_600_000_000_000;

/// Nanoseconds in a minute.
pub const NANOS_PER_MINUTE: i128 = 60_000_000_000;

/// The verdict on registering `username` with `password`, before looking
/// at which names are taken.
pub open spec fn registration_input_ok(username: Seq<char>, password: Seq<char>) -> bool {
    valid_username(username) && byte_len(password) >= 8
}

/// `hash` is what hashing `password` afresh may give: a PHC string that
/// parses and against which Argon2 accepts the password.
pub open spec fn fresh_hash_of(password: Seq<char>, hash: Seq<char>) -> bool {
    "$argon2id$"@.is_prefix_of(hash) && phc_parses(hash) && argon2_accepts(password, hash)
}

/// An account with this activity and stored hash lets `password` sign in.
pub open spec fn signs_in(active: bool, hash: Seq<char>, password: Seq<char>) -> bool {
    active && phc_parses(hash) && argon2_accepts(password, hash)
}

/// `password` is taken as the current password of an account with this
/// stored hash.
pub open spec fn current_password_ok(hash: Seq<char>, password: Seq<char>) -> bool {
    phc_parses(hash) && argon2_accepts(password, hash)
}

/// An email verification token is honoured at instant `now`: it exists, is
/// unused and has not expired.
pub open spec fn token_accepted(record: Option<EmailTokenRecord>, now: i128) -> bool {
    record matches Some(t) && !t.used && now <= t.expires_at
}

/// A captcha answer is accepted at instant `now`: the challenge exists, has
/// not expired, and the answer equals the stored one after lowercasing.
pub open spec fn captcha_accepted(record: Option<CaptchaRecord>, input: Seq<char>, now: i128) -> bool {
    record matches Some(c) && now < c.expires_at && lowercase(c.answer@) == lowercase(input)
}

/// A password hashed afresh signs its account in, and is taken as the
/// current password when it is changed again.
pub proof fn lemma_new_password_signs_in(password: Seq<char>, hash: Seq<char>)
    requires
        fresh_hash_of(password, hash),
    ensures
        signs_in(true, hash, password),
        current_password_ok(hash, password),
{
}

/// A disabled account never signs in, whatever the password.
pub proof fn lemma_disabled_never_signs_in(hash: Seq<char>, password: Seq<char>)
    ensures
        !signs_in(false, hash, password),
{
}

/// An unused verification token is honoured from the moment it is issued
/// until its 24 hours have passed, and at no instant after.
pub proof fn lemma_token_lifetime(token: EmailTokenRecord, issued: i128, now: i128)
    requires
        issued <= i128::MAX - 24 * NANOS_PER_HOUR,
        !token.used,
        token.expires_at == issued + 24 * NANOS_PER_HOUR,
    ensures
        token_accepted(Some(token), now) <==> now <= issued + 24 * NANOS_PER_HOUR,
{
}

/// A token honoured at some instant was honoured at every earlier one, and
/// a used token is never honoured.
pub proof fn lemma_token_acceptance_monotone(record: Option<EmailTokenRecord>, earlier: i128, later: i128)
    requires
        earlier <= later,
        token_accepted(record, later),
    ensures
        token_accepted(record, earlier),
        record matches Some(t) && !t.used,
{
}

/// Captcha answers are compared without regard to case: two answers with
/// the same lowercase form get the same verdict.
pub proof fn lemma_captcha_case_insensitive(record: Option<CaptchaRecord>, a: Seq<char>, b: Seq<char>, now: i128)
    requires
        lowercase(a) == lowercase(b),
    ensures
        captcha_accepted(record, a, now) == captcha_accepted(record, b, now),
{
}

/// A challenge issued at `issued` accepts the answer it shows for ten
/// minutes, and nothing once they are over.
pub proof fn lemma_captcha_lifetime(stored: CaptchaRecord, issued: i128, input: Seq<char>, now: i128)
    requires
        issued <= i128::MAX - 10 * NANOS_PER_MINUTE,
        stored.expires_at == issued + 10 * NANOS_PER_MINUTE,
    ensures
        now < issued + 10 * NANOS_PER_MINUTE && lowercase(stored.answer@) == lowercase(input)
            ==> captcha_accepted(Some(stored), input, now),
        now >= issued + 10 * NANOS_PER_MINUTE ==> !captcha_accepted(Some(stored), input, now),
{
}

/// The account services.
pub struct AuthService;

impl AuthService {
    /// The rules a registration must meet before any lookup: a username of
    /// 3 to 64 bytes made of letters, digits, `-` and `_`, and a password of
    /// at least 8 bytes, checked in that order.
    pub fn check_registration(username: &str, password: &str) -> (r: Result<(), ServiceError>)
        ensures
            r is Ok <==> registration_input_ok(username@, password@),
            r matches Err(e) ==> (
                if !(3 <= byte_len(username@) <= 64) {
                    e.is_bad_request("Username must be 3-64 characters."@)
                } else if !valid_username(username@) {
                    e.is_bad_request("Username can only contain letters, numbers, -, and _."@)
                } else {
                    e.is_bad_request("Password must be at least 8 characters."@)
                }
            ),
    {
        let len = utf8_length(username);
        if len < 3 || len > 64 {
            return Err(bad_request("Username must be 3-64 characters."));
        }
        if !only_name_chars(username, false) {
            return Err(bad_request("Username can only contain letters, numbers, -, and _."));
        }
        if utf8_length(password) < 8 {
            return Err(bad_request("Password must be at least 8 characters."));
        }
        Ok(())
    }

    /// The error for a username someone else has.
    pub fn username_taken() -> (e: ServiceError)
        ensures
            e.is_conflict("Username already taken."@),
    {
        conflict("Username already taken.")
    }

    /// The error for an email address already registered.
    pub fn email_taken() -> (e: ServiceError)
        ensures
            e.is_conflict("Email already registered."@),
    {
        conflict("Email already registered.")
    }

    /// The hash to store for a new password, with a fresh random salt. It
    /// fails only for a password longer than `u32::MAX` bytes, and that
    /// failure becomes an internal error.
    pub fn hash_new_password(password: &str) -> (r: Result<String, ServiceError>)
        ensures
            r is Ok <==> byte_len(password@) <= u32::MAX,
            r matches Ok(h) ==> fresh_hash_of(password@, h@),
            r matches Err(e) ==> e matches ServiceError::Internal(m) && "Password hashing failed: "@.is_prefix_of(m@),
    {
        hash_or_internal(password, "Password hashing failed: ")
    }

    /// Signing in: the account must exist and be active, its stored hash
    /// must parse, and Argon2 must accept the password against it. An
    /// unknown account and a wrong password get the same answer.
    pub fn check_login(account: &Option<LoginAccount>, password: &str) -> (r: Result<(), ServiceError>)
        ensures
            r is Ok <==> (account matches Some(a) && signs_in(a.is_active, a.password_hash@, password@)),
            match account {
                None => r matches Err(e) && e.is_bad_request("Invalid username or password."@),
                Some(a) => if !a.is_active {
                    r matches Err(e) && e.is_forbidden("Account is disabled."@)
                } else if !phc_parses(a.password_hash@) {
                    r matches Err(e) && e matches ServiceError::Internal(m)
                        && m@ == "Invalid password hash: "@ + phc_error(a.password_hash@)
                } else if !argon2_accepts(password@, a.password_hash@) {
                    r matches Err(e) && e.is_bad_request("Invalid username or password."@)
                } else {
                    r is Ok
                },
            },
    {
        match account {
            None => Err(bad_request("Invalid username or password.")),
            Some(a) => {
                if !a.is_active {
                    return Err(forbidden("Account is disabled."));
                }
                match parse_password_hash(a.password_hash.as_str()) {
                    Err(msg) => {
                        let mut m = owned("Invalid password hash: ");
                        m.append(msg.as_str());
                        Err(ServiceError::Internal(m))
                    }
                    Ok(()) => {
                        if verify_argon2(password, a.password_hash.as_str()) {
                            Ok(())
                        } else {
                            Err(bad_request("Invalid username or password."))
                        }
                    }
                }
            }
        }
    }

    /// Changing a password: the stored hash must parse and accept the
    /// current password.
    pub fn check_current_password(stored_hash: &str, current_password: &str) -> (r: Result<(), ServiceError>)
        ensures
            r is Ok <==> current_password_ok(stored_hash@, current_password@),
            if !phc_parses(stored_hash@) {
                r matches Err(e) && e matches ServiceError::Internal(m) && m@ == "Invalid hash: "@ + phc_error(stored_hash@)
            } else if !argon2_accepts(current_password@, stored_hash@) {
                r matches Err(e) && e.is_bad_request("Current password is incorrect."@)
            } else {
                r is Ok
            },
    {
        match parse_password_hash(stored_hash) {
            Err(msg) => {
                let mut m = owned("Invalid hash: ");
                m.append(msg.as_str());
                Err(ServiceError::Internal(m))
            }
            Ok(()) => {
                if verify_argon2(current_password, stored_hash) {
                    Ok(())
                } else {
                    Err(bad_request("Current password is incorrect."))
                }
            }
        }
    }

    /// The error for a user id or name that matches no account.
    pub fn user_not_found() -> (e: ServiceError)
        ensures
            e.is_not_found("User not found."@),
    {
        not_found("User not found.")
    }

    /// Checking an email verification token at instant `now`: it must
    /// exist, be unused and not have expired. Gives the account it verifies.
    pub fn check_email_token(record: &Option<EmailTokenRecord>, now: i128) -> (r: Result<u128, ServiceError>)
        ensures
            r is Ok <==> token_accepted(*record, now),
            match record {
                None => r matches Err(e) && e.is_bad_request("Invalid verification token."@),
                Some(t) => if t.used {
                    r matches Err(e) && e.is_bad_request("This verification link has already been used."@)
                } else if t.expires_at < now {
                    r matches Err(e) && e.is_bad_request("Verification link has expired."@)
                } else {
                    r == Ok::<u128, ServiceError>(t.user_id)
                },
            },
    {
        match record {
            None => Err(bad_request("Invalid verification token.")),
            Some(t) => {
                if t.used {
                    Err(bad_request("This verification link has already been used."))
                } else if t.expires_at < now {
                    Err(bad_request("Verification link has expired."))
                } else {
                    Ok(t.user_id)
                }
            }
        }
    }

    /// When a verification token issued at `now` expires: 24 hours later.
    pub fn verification_expiry(now: i128) -> (t: i128)
        requires
            now <= i128::MAX - 24 * NANOS_PER_HOUR,
        ensures
            t == now + 24 * NANOS_PER_HOUR,
    {
        now + 24 * NANOS_PER_HOUR
    }

    /// When a captcha challenge issued at `now` expires: 10 minutes later.
    pub fn captcha_expiry(now: i128) -> (t: i128)
        requires
            now <= i128::MAX - 10 * NANOS_PER_MINUTE,
        ensures
            t == now + 10 * NANOS_PER_MINUTE,
    {
        now + 10 * NANOS_PER_MINUTE
    }

    /// Judging a captcha answer at instant `now`: a challenge that exists
    /// and has not expired is used up, and the answer is right when it
    /// equals the stored one after lowercasing both; otherwise the answer
    /// is wrong and nothing is deleted.
    pub fn check_captcha(record: &Option<CaptchaRecord>, input: &str, now: i128) -> (c: CaptchaCheck)
        ensures
            c.valid == captcha_accepted(*record, input@, now),
            match record {
                Some(rec) => if rec.expires_at > now {
                    c.consume && c.valid == (lowercase(rec.answer@) == lowercase(input@))
                } else {
                    !c.consume && !c.valid
                },
                None => !c.consume && !c.valid,
            },
    {
        match record {
            Some(rec) => {
                if rec.expires_at > now {
                    let a = to_lowercase(rec.answer.as_str());
                    let b = to_lowercase(input);
                    CaptchaCheck { consume: true, valid: a == b }
                } else {
                    CaptchaCheck { consume: false, valid: false }
                }
            }
            None => CaptchaCheck { consume: false, valid: false },
        }
    }
}

/// The stored email token after a verification attempt at instant `now`:
/// an honoured token is marked used; otherwise nothing changes.
pub open spec fn token_after(record: Option<EmailTokenRecord>, now: i128) -> Option<EmailTokenRecord> {
    if token_accepted(record, now) {
        Some(EmailTokenRecord { used: true, ..record->0 })
    } else {
        record
    }
}

/// A captcha challenge after an answer came in at instant `now`: a live
/// challenge is deleted, right answer or wrong; otherwise nothing changes.
pub open spec fn captcha_after(record: Option<CaptchaRecord>, now: i128) -> Option<CaptchaRecord> {
    match record {
        Some(c) => if now < c.expires_at { None } else { record },
        None => None,
    }
}

impl AuthService {
    /// Verifying an email address with a token at instant `now`: the
    /// verdict, as `check_email_token` gives it, and the token as it is to
    /// be stored afterwards.
    pub fn verify_email_token(record: Option<EmailTokenRecord>, now: i128) -> (r: (
        Result<u128, ServiceError>,
        Option<EmailTokenRecord>,
    ))
        ensures
            r.0 is Ok <==> token_accepted(record, now),
            r.0 matches Ok(u) ==> record matches Some(t) && u == t.user_id,
            r.1 == token_after(record, now),
    {
        let verdict = AuthService::check_email_token(&record, now);
        let after = match record {
            Some(t) => if verdict.is_ok() {
                Some(EmailTokenRecord { user_id: t.user_id, used: true, expires_at: t.expires_at })
            } else {
                Some(t)
            },
            None => None,
        };
        (verdict, after)
    }

    /// Answering a captcha at instant `now`: whether the answer is right, as
    /// `check_captcha` judges it, and the challenge as it is to be stored
    /// afterwards (none once it was used).
    pub fn answer_captcha(record: Option<CaptchaRecord>, input: &str, now: i128) -> (r: (bool, Option<CaptchaRecord>))
        ensures
            r.0 == captcha_accepted(record, input@, now),
            r.1 == captcha_after(record, now),
    {
        let check = AuthService::check_captcha(&record, input, now);
        if check.consume {
            (check.valid, None)
        } else {
            (check.valid, record)
        }
    }
}

/// An email token verifies at most once: after it was honoured, the stored
/// token is marked used, every later attempt is refused as already used,
/// and such an attempt changes nothing.
pub proof fn lemma_token_used_once(record: Option<EmailTokenRecord>, now: i128, later: i128)
    requires
        token_accepted(record, now),
    ensures
        token_after(record, now) matches Some(t) && t.used,
        !token_accepted(token_after(record, now), later),
        token_after(token_after(record, now), later) == token_after(record, now),
{
}

/// A captcha is answered at most once: once an answer came in while the
/// challenge was live, the challenge is gone, and every later answer,
/// whatever it is, is wrong and changes nothing.
pub proof fn lemma_captcha_answered_once(record: Option<CaptchaRecord>, now: i128, later: i128, answer: Seq<char>)
    requires
        record matches Some(c) && now < c.expires_at,
    ensures
        captcha_after(record, now) is None,
        !captcha_accepted(captcha_after(record, now), answer, later),
        captcha_after(captcha_after(record, now), later) is None,
{
}

/// The next step in handling a sign-up form.
#[derive(Debug, Clone, PartialEq, Eq)]
pub enum SignupAction {
    /// Show the form again, with a fresh captcha and this error.
    Retry(String),
    /// Check the captcha answer.
    CheckCaptcha,
    /// Create the account.
    CreateAccount,
}

/// The first step of a sign-up: passwords that differ send the form back;
/// otherwise the captcha is checked.
pub fn signup_on_submit(password: &str, password_confirm: &str) -> (a: SignupAction)
    ensures
        if password@ == password_confirm@ {
            a is CheckCaptcha
        } else {
            a matches SignupAction::Retry(m) && m@ == "Passwords do not match."@
        },
{
    if str_equal(password, password_confirm) {
        SignupAction::CheckCaptcha
    } else {
        SignupAction::Retry(owned("Passwords do not match."))
    }
}

/// The step after the captcha was judged: a wrong answer sends the form
/// back; a right one creates the account.
pub fn signup_on_captcha(valid: bool) -> (a: SignupAction)
    ensures
        if valid {
            a is CreateAccount
        } else {
            a matches SignupAction::Retry(m) && m@ == "Verification code is incorrect."@
        },
{
    if valid {
        SignupAction::CreateAccount
    } else {
        SignupAction::Retry(owned("Verification code is incorrect."))
    }
}

} // verus!
