use gitrust::auth::{
    signup_on_captcha, signup_on_submit, AuthService, CaptchaRecord, EmailTokenRecord, LoginAccount,
    SignupAction, NANOS_PER_HOUR, NANOS_PER_MINUTE,
};
use gitrust::captcha::{challenge_from, fresh_token, CaptchaPicture, CaptchaService, CAPTCHA_LENGTH};
use gitrust::email::{EmailService, VerificationEmail};
use gitrust::error::ServiceError;
use gitrust::users::{change_password, ssh_fingerprint, is_profile_owner, PasswordForm};

fn bad_request(e: &ServiceError) -> String {
    match e {
        ServiceError::BadRequest(m) => m.clone(),
        other => panic!("expected a bad request, got {:?}", other),
    }
}

#[test]
fn registration_rules_in_order() {
    assert!(AuthService::check_registration("alice", "password1").is_ok());
    let e = AuthService::check_registration("al", "password1").unwrap_err();
    assert_eq!(bad_request(&e), "Username must be 3-64 characters.");
    let long = "a".repeat(65);
    assert_eq!(bad_request(&AuthService::check_registration(&long, "password1").unwrap_err()),
        "Username must be 3-64 characters.");
    assert!(AuthService::check_registration(&"a".repeat(64), "password1").is_ok());
    let e = AuthService::check_registration("bad name", "password1").unwrap_err();
    assert_eq!(bad_request(&e), "Username can only contain letters, numbers, -, and _.");
    let e = AuthService::check_registration("al.ice", "short").unwrap_err();
    assert_eq!(bad_request(&e), "Username can only contain letters, numbers, -, and _.");
    let e = AuthService::check_registration("alice", "short").unwrap_err();
    assert_eq!(bad_request(&e), "Password must be at least 8 characters.");
    // lengths are counted in bytes: three two-byte letters pass
    assert!(AuthService::check_registration("äöü", "password1").is_ok());
    // and a seven-character password of multi-byte letters is long enough
    assert!(AuthService::check_registration("alice", "ääää").is_ok());
}

#[test]
fn taken_names_are_conflicts() {
    assert_eq!(AuthService::username_taken(), ServiceError::Conflict("Username already taken.".to_string()));
    assert_eq!(AuthService::email_taken(), ServiceError::Conflict("Email already registered.".to_string()));
    assert_eq!(AuthService::user_not_found(), ServiceError::NotFound("User not found.".to_string()));
}

#[test]
fn fresh_hash_signs_in_and_wrong_password_does_not() {
    let hash = AuthService::hash_new_password("correct horse").unwrap();
    assert!(hash.starts_with("$argon2"));
    let account = Some(LoginAccount { is_active: true, password_hash: hash.clone() });
    assert!(AuthService::check_login(&account, "correct horse").is_ok());
    let e = AuthService::check_login(&account, "wrong horse").unwrap_err();
    assert_eq!(bad_request(&e), "Invalid username or password.");
    assert!(AuthService::check_current_password(&hash, "correct horse").is_ok());
    let e = AuthService::check_current_password(&hash, "nope").unwrap_err();
    assert_eq!(bad_request(&e), "Current password is incorrect.");
}

#[test]
fn two_hashes_of_one_password_differ_but_both_verify() {
    let a = AuthService::hash_new_password("same password").unwrap();
    let b = AuthService::hash_new_password("same password").unwrap();
    assert_ne!(a, b);
    assert!(AuthService::check_current_password(&a, "same password").is_ok());
    assert!(AuthService::check_current_password(&b, "same password").is_ok());
}

#[test]
fn login_refusals() {
    let e = AuthService::check_login(&None, "whatever").unwrap_err();
    assert_eq!(bad_request(&e), "Invalid username or password.");
    let hash = AuthService::hash_new_password("password123").unwrap();
    let disabled = Some(LoginAccount { is_active: false, password_hash: hash });
    assert_eq!(AuthService::check_login(&disabled, "password123").unwrap_err(),
        ServiceError::Forbidden("Account is disabled.".to_string()));
    let broken = Some(LoginAccount { is_active: true, password_hash: "not a hash".to_string() });
    match AuthService::check_login(&broken, "password123").unwrap_err() {
        ServiceError::Internal(m) => assert!(m.starts_with("Invalid password hash: ")),
        other => panic!("unexpected {:?}", other),
    }
    match AuthService::check_current_password("not a hash", "x").unwrap_err() {
        ServiceError::Internal(m) => assert!(m.starts_with("Invalid hash: ")),
        other => panic!("unexpected {:?}", other),
    }
}

#[test]
fn password_change_hashes_the_new_password() {
    let old = AuthService::hash_new_password("old password").unwrap();
    let new_hash = change_password(&old, "old password", "new password").unwrap();
    assert!(AuthService::check_current_password(&new_hash, "new password").is_ok());
    assert!(AuthService::check_current_password(&new_hash, "old password").is_err());
    let e = change_password(&old, "not the old one", "new password").unwrap_err();
    assert_eq!(bad_request(&e), "Current password is incorrect.");
}

#[test]
fn password_form_confirmation() {
    let f = PasswordForm { current_password: "a".into(), new_password: "b1".into(), new_password_confirm: "b1".into() };
    assert!(f.confirmation_matches());
    let g = PasswordForm { current_password: "a".into(), new_password: "b1".into(), new_password_confirm: "b2".into() };
    assert!(!g.confirmation_matches());
}

#[test]
fn email_token_verdicts() {
    let now: i128 = 1_700_000_000_000_000_000;
    let ok = Some(EmailTokenRecord { user_id: 7, used: false, expires_at: now + 1 });
    assert_eq!(AuthService::check_email_token(&ok, now).unwrap(), 7);
    let at_expiry = Some(EmailTokenRecord { user_id: 7, used: false, expires_at: now });
    assert_eq!(AuthService::check_email_token(&at_expiry, now).unwrap(), 7);
    let used = Some(EmailTokenRecord { user_id: 7, used: true, expires_at: now + 1 });
    assert_eq!(bad_request(&AuthService::check_email_token(&used, now).unwrap_err()),
        "This verification link has already been used.");
    let expired = Some(EmailTokenRecord { user_id: 7, used: false, expires_at: now - 1 });
    assert_eq!(bad_request(&AuthService::check_email_token(&expired, now).unwrap_err()),
        "Verification link has expired.");
    assert_eq!(bad_request(&AuthService::check_email_token(&None, now).unwrap_err()),
        "Invalid verification token.");
}

#[test]
fn token_lives_a_day_and_captcha_ten_minutes() {
    assert_eq!(AuthService::verification_expiry(0), 24 * 3_600_000_000_000);
    assert_eq!(AuthService::verification_expiry(5), 5 + 24 * NANOS_PER_HOUR);
    assert_eq!(AuthService::captcha_expiry(100), 100 + 600_000_000_000);
    assert_eq!(NANOS_PER_MINUTE * 60, NANOS_PER_HOUR);
    // issued now, honoured until the day is over and not after
    let issued: i128 = 1_000;
    let t = Some(EmailTokenRecord { user_id: 1, used: false, expires_at: AuthService::verification_expiry(issued) });
    assert!(AuthService::check_email_token(&t, issued + 24 * NANOS_PER_HOUR).is_ok());
    assert!(AuthService::check_email_token(&t, issued + 24 * NANOS_PER_HOUR + 1).is_err());
}

#[test]
fn captcha_answers_ignore_case_and_expire() {
    let now: i128 = 10_000;
    let rec = Some(CaptchaRecord { answer: "ab3de".into(), expires_at: now + 1 });
    let c = AuthService::check_captcha(&rec, "AB3DE", now);
    assert!(c.consume && c.valid);
    let c = AuthService::check_captcha(&rec, "ab3dd", now);
    assert!(c.consume && !c.valid);
    let expired = Some(CaptchaRecord { answer: "ab3de".into(), expires_at: now });
    let c = AuthService::check_captcha(&expired, "ab3de", now);
    assert!(!c.consume && !c.valid);
    let c = AuthService::check_captcha(&None, "ab3de", now);
    assert!(!c.consume && !c.valid);
}

#[test]
fn signup_steps() {
    assert_eq!(signup_on_submit("pw123456", "pw123456"), SignupAction::CheckCaptcha);
    assert_eq!(signup_on_submit("pw123456", "pw1234567"), SignupAction::Retry("Passwords do not match.".to_string()));
    assert_eq!(signup_on_captcha(true), SignupAction::CreateAccount);
    assert_eq!(signup_on_captcha(false), SignupAction::Retry("Verification code is incorrect.".to_string()));
}

#[test]
fn generated_captcha_has_token_answer_and_picture() {
    let (token, answer, image) = CaptchaService::generate();
    assert_eq!(token.len(), 36);
    let parsed = uuid::Uuid::parse_str(&token).unwrap();
    assert_eq!(parsed.get_version_num(), 4);
    assert_eq!(token, token.to_lowercase());
    assert_eq!(answer.chars().count(), CAPTCHA_LENGTH);
    assert_eq!(answer, answer.to_lowercase());
    assert!(answer.chars().all(|c| c.is_ascii_alphanumeric() && !"01iloIL0O".contains(c)));
    assert!(image.starts_with("data:image/jpeg;base64,"));
    assert!(image.len() > "data:image/jpeg;base64,".len());
    // the answer is accepted, typed in any case, while the challenge is fresh
    let rec = Some(CaptchaRecord { answer: answer.clone(), expires_at: AuthService::captcha_expiry(0) });
    assert!(AuthService::check_captcha(&rec, &answer.to_uppercase(), 1).valid);
    let (token2, _, _) = CaptchaService::generate();
    assert_ne!(token, token2);
}

fn service(host: &str, user: &str, from: &str) -> EmailService {
    EmailService::new(host.to_string(), 587, user.to_string(), "secret".to_string(), from, "https://git.example.org".to_string())
}

#[test]
fn email_sender_falls_back_when_unparsable() {
    assert_eq!(service("h", "u", "GitRust <git@example.org>").smtp_from, "GitRust <git@example.org>");
    assert_eq!(service("h", "u", "git@example.org").smtp_from, "git@example.org");
    assert_eq!(service("h", "u", "not an address").smtp_from, "noreply@gitrust.local");
    assert_eq!(service("h", "u", "").smtp_from, "noreply@gitrust.local");
}

#[test]
fn email_configuration_needs_host_and_user() {
    assert!(service("smtp.example.org", "mailer", "a@b.c").is_configured());
    assert!(!service("", "mailer", "a@b.c").is_configured());
    assert!(!service("smtp.example.org", "", "a@b.c").is_configured());
}

#[test]
fn verification_email_contents() {
    let s = service("h", "u", "a@b.c");
    assert_eq!(s.verification_url("tok123"), "https://git.example.org/auth/verify-email/tok123");
    let m: VerificationEmail = s.verification_email("bob@example.org", "bob", "tok123").unwrap();
    assert_eq!(m.to, "bob@example.org");
    assert_eq!(m.subject, "Verify your GitRust email address");
    assert_eq!(m.url, "https://git.example.org/auth/verify-email/tok123");
    let expected = format!(
        r#"<!DOCTYPE html>
<html><head><meta charset="UTF-8"></head>
<body style="font-family:sans-serif;background:#0d1117;color:#e6edf3;padding:24px;">
<div style="max-width:480px;margin:0 auto;background:#161b22;border:1px solid #30363d;border-radius:12px;padding:32px;">
<h2 style="margin-top:0;">Welcome to GitRust, {}!</h2>
<p>Please verify your email address to complete your registration.</p>
<a href="{}" style="display:inline-block;background:#1f6feb;color:#fff;padding:10px 24px;border-radius:6px;text-decoration:none;font-weight:600;">Verify Email</a>
<p style="margin-top:24px;font-size:13px;color:#8b949e;">This link expires in 24 hours. If you did not create this account, please ignore this email.</p>
</div></body></html>"#,
        "bob", "https://git.example.org/auth/verify-email/tok123"
    );
    assert_eq!(m.body, expected);
}

#[test]
fn verification_email_to_a_bad_address() {
    let s = service("h", "u", "a@b.c");
    let e = s.verification_email("no at sign", "bob", "t").unwrap_err();
    assert!(e.starts_with("Invalid email: "));
    assert!(e.len() > "Invalid email: ".len());
}

#[test]
fn ssh_fingerprint_takes_32_characters() {
    assert_eq!(ssh_fingerprint("ssh-ed25519 AAAA"), "SHA256:ssh-ed25519 AAAA");
    let key = "ssh-ed25519 AAAAC3NzaC1lZDI1NTE5AAAAIExampleKeyMaterial user@host";
    assert_eq!(ssh_fingerprint(key), format!("SHA256:{}", key.chars().take(32).collect::<String>()));
    assert_eq!(ssh_fingerprint(""), "SHA256:");
    let wide = "é".repeat(40);
    assert_eq!(ssh_fingerprint(&wide), format!("SHA256:{}", "é".repeat(32)));
}

#[test]
fn profile_ownership() {
    assert!(is_profile_owner(Some(5), 5));
    assert!(!is_profile_owner(Some(4), 5));
    assert!(!is_profile_owner(None, 5));
}

#[test]
fn challenge_keeps_token_picture_and_lowercased_answer() {
    let pic = CaptchaPicture { text: "Ab3Xy".to_string(), image: "data:image/jpeg;base64,QUJD".to_string() };
    let (token, answer, image) = challenge_from(pic, "tok-1".to_string());
    assert_eq!(token, "tok-1");
    assert_eq!(answer, "ab3xy");
    assert_eq!(image, "data:image/jpeg;base64,QUJD");
}

#[test]
fn fresh_tokens_are_v4_uuids() {
    let a = fresh_token();
    let b = fresh_token();
    assert_eq!(a.len(), 36);
    assert_eq!(uuid::Uuid::parse_str(&a).unwrap().get_version_num(), 4);
    assert_eq!(a, a.to_lowercase());
    assert_ne!(a, b);
}

#[test]
fn a_token_verifies_once() {
    let now: i128 = 1_000;
    let rec = Some(EmailTokenRecord { user_id: 3, used: false, expires_at: now + 10 });
    let (first, after) = AuthService::verify_email_token(rec, now);
    assert_eq!(first.unwrap(), 3);
    assert_eq!(after, Some(EmailTokenRecord { user_id: 3, used: true, expires_at: now + 10 }));
    let (second, again) = AuthService::verify_email_token(after.clone(), now + 1);
    assert_eq!(second.unwrap_err(), ServiceError::BadRequest("This verification link has already been used.".into()));
    assert_eq!(again, after);
    let (none, stays) = AuthService::verify_email_token(None, now);
    assert!(none.is_err());
    assert_eq!(stays, None);
}

#[test]
fn a_captcha_is_answered_once() {
    let now: i128 = 50;
    let rec = Some(CaptchaRecord { answer: "abcde".into(), expires_at: now + 5 });
    let (wrong, after) = AuthService::answer_captcha(rec.clone(), "zzzzz", now);
    assert!(!wrong);
    assert_eq!(after, None);
    let (right, after) = AuthService::answer_captcha(rec, "ABCDE", now);
    assert!(right);
    assert_eq!(after, None);
    let (late, stays) = AuthService::answer_captcha(after, "abcde", now + 1);
    assert!(!late);
    assert_eq!(stays, None);
    let expired = Some(CaptchaRecord { answer: "abcde".into(), expires_at: now });
    let (v, kept) = AuthService::answer_captcha(expired.clone(), "abcde", now);
    assert!(!v);
    assert_eq!(kept, expired);
}

#[test]
fn hashing_succeeds_and_gives_argon2id() {
    for p in ["", "x", "correct horse battery staple", "ü日本🦀"] {
        let h = AuthService::hash_new_password(p).unwrap();
        assert!(h.starts_with("$argon2id$"));
        assert_ne!(h, p);
        assert!(AuthService::check_current_password(&h, p).is_ok());
    }
    let old = AuthService::hash_new_password("old one").unwrap();
    assert!(change_password(&old, "old one", "").is_ok());
}
