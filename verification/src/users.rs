//! Profiles, settings forms and SSH keys.
use vstd::prelude::*;
use vstd::string::*;
use crate::auth::{AuthService, current_password_ok, fresh_hash_of, hash_or_internal};
use crate::error::{ServiceError, not_found};
use crate::text::{chars_of, owned, push_char};
use crate::urls::prefixed;

verus! {

/// The editable profile fields.
pub struct ProfileForm {
    pub display_name: String,
    pub bio: String,
}

/// A password change: the current password and the new one typed twice.
pub struct PasswordForm {
    pub current_password: String,
    pub new_password: String,
    pub new_password_confirm: String,
}

/// A public SSH key to add, with a title.
pub struct SshKeyForm {
    pub title: String,
    pub public_key: String,
}

impl PasswordForm {
    /// Whether the new password was typed the same way twice.
    pub fn confirmation_matches(&self) -> (b: bool)
        ensures
            b == (self.new_password@ == self.new_password_confirm@),
    {
        self.new_password == self.new_password_confirm
    }
}

/// The fingerprint shown for an SSH key: `SHA256:` followed by the first 32
/// characters of the key text.
pub open spec fn fingerprint_text(public_key: Seq<char>) -> Seq<char> {
    "SHA256:"@ + if public_key.len() <= 32 { public_key } else { public_key.subrange(0, 32) }
}

impl SshKeyForm {
    /// The fingerprint recorded for the key in this form.
    pub fn fingerprint(&self) -> (f: String)
        ensures
            f@ == fingerprint_text(self.public_key@),
    {
        ssh_fingerprint(self.public_key.as_str())
    }
}

/// The fingerprint recorded for a public SSH key.
pub fn ssh_fingerprint(public_key: &str) -> (f: String)
    ensures
        f@ == fingerprint_text(public_key@),
{
    let cs = chars_of(public_key);
    let n: usize = if cs.len() <= 32 { cs.len() } else { 32 };
    let mut f = owned("SHA256:");
    let mut i: usize = 0;
    while i < n
        invariant
            cs@ == public_key@,
            n <= cs@.len(),
            n == (if cs@.len() <= 32 { cs@.len() as int } else { 32 }),
            i <= n,
            f@ == "SHA256:"@ + cs@.subrange(0, i as int),
        decreases n - i,
    {
        push_char(&mut f, cs[i]);
        i = i + 1;
        proof {
            assert(f@ =~= "SHA256:"@ + cs@.subrange(0, i as int));
        }
    }
    proof {
        if cs@.len() <= 32 {
            assert(cs@.subrange(0, n as int) =~= cs@);
        }
    }
    f
}

/// Whether the signed-in viewer, if any, is the owner of the profile shown.
pub fn is_profile_owner(viewer: Option<u128>, profile_user: u128) -> (b: bool)
    ensures
        b == (viewer == Some(profile_user)),
{
    match viewer {
        Some(v) => v == profile_user,
        None => false,
    }
}

/// The answer to deleting an SSH key, from the number of keys the deletion
/// removed: none means the user has no such key.
pub fn ssh_key_delete_outcome(rows_affected: u64) -> (r: Result<(), ServiceError>)
    ensures
        rows_affected == 0 <==> r is Err,
        r matches Err(e) ==> e.is_not_found("SSH key not found."@),
{
    if rows_affected == 0 {
        Err(not_found("SSH key not found."))
    } else {
        Ok(())
    }
}

/// The profile page of a user.
pub fn profile_url(username: &str) -> (u: String)
    ensures
        u@ == "/"@ + username@,
{
    prefixed("/", username)
}

/// Changing a password: the current one must be accepted by the stored
/// hash; then the new one is hashed afresh, and that hash is what to store.
pub fn change_password(stored_hash: &str, current_password: &str, new_password: &str) -> (r: Result<String, ServiceError>)
    ensures
        r is Ok <==> current_password_ok(stored_hash@, current_password@) && crate::names::byte_len(new_password@) <= u32::MAX,
        r matches Ok(h) ==> current_password_ok(stored_hash@, current_password@) && fresh_hash_of(new_password@, h@),
        !current_password_ok(stored_hash@, current_password@) ==> r is Err,
        r matches Err(e) ==> (
            if current_password_ok(stored_hash@, current_password@) {
                e matches ServiceError::Internal(m) && "Hash failed: "@.is_prefix_of(m@)
            } else if crate::auth::phc_parses(stored_hash@) {
                e.is_bad_request("Current password is incorrect."@)
            } else {
                e matches ServiceError::Internal(m) && m@ == "Invalid hash: "@ + crate::auth::phc_error(stored_hash@)
            }
        ),
{
    AuthService::check_current_password(stored_hash, current_password)?;
    hash_or_internal(new_password, "Hash failed: ")
}

} // verus!
