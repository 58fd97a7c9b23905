//! The verification email: the sender address, the link, the message, and
//! whether a mail server is configured to send it.
use vstd::prelude::*;
use crate::text::owned;

verus! {

/// What lettre's `Mailbox` parser says of an address: `None` where it
/// parses, else the text of its `AddressError`.
pub uninterp spec fn mailbox_error(address: Seq<char>) -> Option<Seq<char>>;

/// Parses an address as a lettre `Mailbox` (`str::parse::<Mailbox>`).
/// Claims that it succeeds exactly where the named result is `None`, and
/// that a failure carries the error's text.
#[verifier::external_body]
fn parse_mailbox(address: &str) -> (r: Result<(), String>)
    ensures
        match r {
            Ok(()) => mailbox_error(address@) is None,
            Err(t) => mailbox_error(address@) == Some(t@),
        },
{
    match address.parse::<lettre::message::Mailbox>() {
        Ok(_) => Ok(()),
        Err(e) => Err(e.to_string()),
    }
}

/// The sender used when the configured one does not parse.
pub open spec fn fallback_sender() -> Seq<char> {
    "noreply@gitrust.local"@
}

/// The sender address: the configured one where it parses, the fallback
/// otherwise.
pub open spec fn sender_text(configured: Seq<char>) -> Seq<char> {
    if mailbox_error(configured) is None { configured } else { fallback_sender() }
}

/// The subject of the verification email.
pub open spec fn verification_subject_text() -> Seq<char> {
    "Verify your GitRust email address"@
}

/// The link that verifies an account's email address.
pub open spec fn verification_url_text(base_url: Seq<char>, token: Seq<char>) -> Seq<char> {
    base_url + "/auth/verify-email/"@ + token
}

/// The HTML of the verification email for a user and a link.
pub open spec fn verification_body_text(username: Seq<char>, url: Seq<char>) -> Seq<char> {
    "<!DOCTYPE html>\n<html><head><meta charset=\"UTF-8\"></head>\n<body style=\"font-family:sans-serif;background:#0d1117;color:#e6edf3;padding:24px;\">\n<div style=\"max-width:480px;margin:0 auto;background:#161b22;border:1px solid #30363d;border-radius:12px;padding:32px;\">\n<h2 style=\"margin-top:0;\">Welcome to GitRust, "@ + username + "!</h2>\n<p>Please verify your email address to complete your registration.</p>\n<a href=\""@ + url + "\" style=\"display:inline-block;background:#1f6feb;color:#fff;padding:10px 24px;border-radius:6px;text-decoration:none;font-weight:600;\">Verify Email</a>\n<p style=\"margin-top:24px;font-size:13px;color:#8b949e;\">This link expires in 24 hours. If you did not create this account, please ignore this email.</p>\n</div></body></html>"@
}

/// A verification email ready to be sent.
#[derive(Debug, Clone, PartialEq, Eq)]
pub struct VerificationEmail {
    pub to: String,
    pub subject: String,
    pub body: String,
    pub url: String,
}

/// Where and how verification emails are sent.
#[derive(Debug, Clone, PartialEq, Eq)]
pub struct EmailService {
    pub smtp_host: String,
    pub smtp_port: u16,
    pub smtp_user: String,
    pub smtp_pass: String,
    pub smtp_from: String,
    pub base_url: String,
}

impl EmailService {
    /// The service for a mail server; a sender address that does not parse
    /// is replaced by the fallback.
    pub fn new(
        smtp_host: String,
        smtp_port: u16,
        smtp_user: String,
        smtp_pass: String,
        smtp_from: &str,
        base_url: String,
    ) -> (s: EmailService)
        ensures
            s.smtp_host == smtp_host,
            s.smtp_port == smtp_port,
            s.smtp_user == smtp_user,
            s.smtp_pass == smtp_pass,
            s.smtp_from@ == sender_text(smtp_from@),
            s.base_url == base_url,
    {
        let from = match parse_mailbox(smtp_from) {
            Ok(()) => owned(smtp_from),
            Err(_) => owned("noreply@gitrust.local"),
        };
        EmailService { smtp_host, smtp_port, smtp_user, smtp_pass, smtp_from: from, base_url }
    }

    /// Whether a mail server is configured: a host and a user are set.
    pub fn is_configured(&self) -> (b: bool)
        ensures
            b == (self.smtp_host@.len() > 0 && self.smtp_user@.len() > 0),
    {
        !(self.smtp_host.as_str().is_empty() || self.smtp_user.as_str().is_empty())
    }

    /// The link that verifies the address behind a token.
    pub fn verification_url(&self, token: &str) -> (u: String)
        ensures
            u@ == verification_url_text(self.base_url@, token@),
    {
        let mut u = self.base_url.clone();
        u.append("/auth/verify-email/");
        u.append(token);
        u
    }

    /// The verification email for a new account, or the error for an
    /// address that does not parse.
    pub fn verification_email(&self, to_address: &str, username: &str, token: &str) -> (r: Result<
        VerificationEmail,
        String,
    >)
        ensures
            match r {
                Ok(m) => mailbox_error(to_address@) is None && m.to@ == to_address@
                    && m.subject@ == verification_subject_text()
                    && m.url@ == verification_url_text(self.base_url@, token@)
                    && m.body@ == verification_body_text(username@, m.url@),
                Err(t) => mailbox_error(to_address@) matches Some(e) && t@ == "Invalid email: "@ + e,
            },
    {
        if let Err(e) = parse_mailbox(to_address) {
            let mut t = owned("Invalid email: ");
            t.append(e.as_str());
            return Err(t);
        }
        let url = self.verification_url(token);
        let mut body = owned("<!DOCTYPE html>\n<html><head><meta charset=\"UTF-8\"></head>\n<body style=\"font-family:sans-serif;background:#0d1117;color:#e6edf3;padding:24px;\">\n<div style=\"max-width:480px;margin:0 auto;background:#161b22;border:1px solid #30363d;border-radius:12px;padding:32px;\">\n<h2 style=\"margin-top:0;\">Welcome to GitRust, ");
        body.append(username);
        body.append("!</h2>\n<p>Please verify your email address to complete your registration.</p>\n<a href=\"");
        body.append(url.as_str());
        body.append("\" style=\"display:inline-block;background:#1f6feb;color:#fff;padding:10px 24px;border-radius:6px;text-decoration:none;font-weight:600;\">Verify Email</a>\n<p style=\"margin-top:24px;font-size:13px;color:#8b949e;\">This link expires in 24 hours. If you did not create this account, please ignore this email.</p>\n</div></body></html>");
        Ok(VerificationEmail {
            to: owned(to_address),
            subject: owned("Verify your GitRust email address"),
            body,
            url,
        })
    }
}

} // verus!
