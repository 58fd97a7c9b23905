//! Groups: the naming rule, invite codes and who belongs to a group.
use vstd::prelude::*;
use vstd::string::*;
use crate::error::{ServiceError, bad_request, conflict, not_found};
use crate::names::{ascii_alphanumeric, byte_len, valid_group_name, only_name_chars};
use crate::text::str_equal;
use crate::urls::prefixed;
use rand::Rng;

verus! {

/// The fields of a new group.
pub struct CreateGroupForm {
    pub name: String,
    pub display_name: String,
    pub description: String,
}

/// An invite code typed in to join a group.
pub struct JoinForm {
    pub code: String,
}

/// Limits of a new invite code: how often it may be used and for how many
/// days it stays valid.
pub struct GenerateInviteForm {
    pub max_uses: Option<i32>,
    pub expires_days: Option<i32>,
}

/// A member as the group page lists it; `joined_at` in nanoseconds since
/// the Unix epoch.
#[derive(Debug, Clone, PartialEq, Eq)]
pub struct GroupMemberRow {
    pub user_id: u128,
    pub role: String,
    pub joined_at: i128,
    pub username: String,
    pub display_name: String,
}

/// The state of an invite code when someone tries to use it; instants in
/// nanoseconds since the Unix epoch.
#[derive(Debug, Clone, PartialEq, Eq)]
pub struct InviteRecord {
    pub group_id: u128,
    pub max_uses: Option<i32>,
    pub current_uses: i32,
    pub expires_at: Option<i128>,
    pub is_active: bool,
}

/// Why an invite code is refused, if it is.
#[derive(Debug, Clone, PartialEq, Eq)]
pub enum InviteVerdict {
    Accepted,
    Unknown,
    Inactive,
    UsedUp,
    Expired,
}

/// The verdict on an invite code at instant `now`, checks in the order the
/// service applies them.
pub open spec fn invite_verdict(invite: Option<InviteRecord>, now: int) -> InviteVerdict {
    match invite {
        None => InviteVerdict::Unknown,
        Some(inv) => if !inv.is_active {
            InviteVerdict::Inactive
        } else if inv.max_uses is Some && inv.current_uses >= inv.max_uses->0 {
            InviteVerdict::UsedUp
        } else if inv.expires_at is Some && inv.expires_at->0 < now {
            InviteVerdict::Expired
        } else {
            InviteVerdict::Accepted
        },
    }
}

/// The group name rule, then the check that the name is free.
pub fn check_group_name(name: &str) -> (r: Result<(), ServiceError>)
    ensures
        r is Ok <==> valid_group_name(name@),
        r matches Err(e) ==> (if 3 <= byte_len(name@) <= 128 {
            e.is_bad_request("Group name can only contain letters, numbers, -, and _."@)
        } else {
            e.is_bad_request("Group name must be 3-128 characters."@)
        }),
{
    let len = crate::names::utf8_length(name);
    if len < 3 || len > 128 {
        return Err(bad_request("Group name must be 3-128 characters."));
    }
    if !only_name_chars(name, false) {
        return Err(bad_request("Group name can only contain letters, numbers, -, and _."));
    }
    Ok(())
}

/// The error for a group name that is already in use.
pub fn group_name_taken() -> (e: ServiceError)
    ensures
        e.is_conflict("Group name already taken."@),
{
    conflict("Group name already taken.")
}

/// The error for a group that does not exist.
pub fn group_not_found() -> (e: ServiceError)
    ensures
        e.is_not_found("Group not found."@),
{
    not_found("Group not found.")
}

/// Checks an invite code at instant `now`: it must exist, be active, have
/// uses left and not have expired. Gives the group it admits to.
pub fn check_invite(invite: Option<InviteRecord>, now: i128) -> (r: Result<u128, ServiceError>)
    ensures
        match invite_verdict(invite, now as int) {
            InviteVerdict::Accepted => r == Ok::<u128, ServiceError>(invite->0.group_id),
            InviteVerdict::Unknown => r matches Err(e) && e.is_bad_request("Invalid invite code."@),
            InviteVerdict::Inactive => r matches Err(e) && e.is_bad_request("This invite code is no longer active."@),
            InviteVerdict::UsedUp => r matches Err(e) && e.is_bad_request("This invite code has reached its maximum uses."@),
            InviteVerdict::Expired => r matches Err(e) && e.is_bad_request("This invite code has expired."@),
        },
{
    match invite {
        None => Err(bad_request("Invalid invite code.")),
        Some(inv) => {
            if !inv.is_active {
                return Err(bad_request("This invite code is no longer active."));
            }
            if let Some(max) = inv.max_uses {
                if inv.current_uses >= max {
                    return Err(bad_request("This invite code has reached its maximum uses."));
                }
            }
            if let Some(exp) = inv.expires_at {
                if exp < now {
                    return Err(bad_request("This invite code has expired."));
                }
            }
            Ok(inv.group_id)
        }
    }
}

/// Someone who already belongs to the group cannot join it again.
pub fn check_not_member(already_member: bool) -> (r: Result<(), ServiceError>)
    ensures
        r is Ok <==> !already_member,
        r matches Err(e) ==> e.is_bad_request("You are already a member of this group."@),
{
    if already_member {
        Err(bad_request("You are already a member of this group."))
    } else {
        Ok(())
    }
}

/// An invite code accepted at some instant is accepted at every earlier
/// instant too: expiry only ever takes effect, never lifts.
pub proof fn lemma_invite_acceptance_monotone(invite: Option<InviteRecord>, earlier: int, later: int)
    requires
        earlier <= later,
        invite_verdict(invite, later) is Accepted,
    ensures
        invite_verdict(invite, earlier) is Accepted,
{
}

/// An invite code whose use count has reached its limit is never accepted,
/// whatever the instant; so a code created with a limit of `m` uses admits
/// at most `m` joins, each of which adds one use.
pub proof fn lemma_invite_use_limit(inv: InviteRecord, now: int)
    requires
        inv.max_uses is Some,
        inv.current_uses >= inv.max_uses->0,
    ensures
        !(invite_verdict(Some(inv), now) is Accepted),
{
}

/// The member rows hold a member with this user id.
pub open spec fn has_member(members: Seq<GroupMemberRow>, user: u128) -> bool {
    exists|i: int| 0 <= i < members.len() && #[trigger] members[i].user_id == user
}

/// The member rows hold a member with this user id whose role is `owner`.
pub open spec fn has_owner(members: Seq<GroupMemberRow>, user: u128) -> bool {
    exists|i: int| 0 <= i < members.len() && #[trigger] members[i].user_id == user && members[i].role@ == "owner"@
}

/// Whether the viewer, if signed in, is among the members.
pub fn is_member(members: &Vec<GroupMemberRow>, viewer: Option<u128>) -> (b: bool)
    ensures
        b == (viewer is Some && has_member(members@, viewer->0)),
{
    match viewer {
        None => false,
        Some(u) => {
            let mut i: usize = 0;
            while i < members.len()
                invariant
                    viewer == Some(u),
                    i <= members@.len(),
                    forall|j: int| 0 <= j < i ==> members@[j].user_id != u,
                decreases members@.len() - i,
            {
                if members[i].user_id == u {
                    assert(members@[i as int].user_id == u);
                    return true;
                }
                i = i + 1;
            }
            false
        }
    }
}

/// Whether the viewer, if signed in, is a member with the `owner` role.
pub fn is_owner(members: &Vec<GroupMemberRow>, viewer: Option<u128>) -> (b: bool)
    ensures
        b == (viewer is Some && has_owner(members@, viewer->0)),
{
    match viewer {
        None => false,
        Some(u) => {
            let mut i: usize = 0;
            while i < members.len()
                invariant
                    viewer == Some(u),
                    i <= members@.len(),
                    forall|j: int| 0 <= j < i ==> !(members@[j].user_id == u && members@[j].role@ == "owner"@),
                decreases members@.len() - i,
            {
                if members[i].user_id == u && str_equal(members[i].role.as_str(), "owner") {
                    assert(members@[i as int].user_id == u && members@[i as int].role@ == "owner"@);
                    return true;
                }
                i = i + 1;
            }
            false
        }
    }
}

/// Every owner of a group is one of its members.
pub proof fn lemma_owner_is_member(members: Seq<GroupMemberRow>, user: u128)
    requires
        has_owner(members, user),
    ensures
        has_member(members, user),
{
    let i = choose|i: int| 0 <= i < members.len() && #[trigger] members[i].user_id == user && members[i].role@ == "owner"@;
    assert(members[i].user_id == user);
}

/// Twelve random ASCII letters and digits (`rand::distributions::Alphanumeric`
/// sampled through `thread_rng`). The claim is what the distribution's
/// documentation and source give: the requested count of characters, each
/// among `a-z`, `A-Z`, `0-9`. Which characters come out is left open.
#[verifier::external_body]
fn random_alphanumeric(count: usize) -> (s: String)
    ensures
        s@.len() == count,
        forall|i: int| 0 <= i < s@.len() ==> ascii_alphanumeric(#[trigger] s@[i]),
{
    rand::thread_rng().sample_iter(&rand::distributions::Alphanumeric).take(count).map(char::from).collect()
}

/// A fresh invite code: twelve random ASCII letters and digits.
pub fn new_invite_code() -> (code: String)
    ensures
        code@.len() == 12,
        forall|i: int| 0 <= i < code@.len() ==> ascii_alphanumeric(#[trigger] code@[i]),
{
    random_alphanumeric(12)
}

/// The page of a group.
pub fn group_url(name: &str) -> (u: String)
    ensures
        u@ == "/groups/"@ + name@,
{
    prefixed("/groups/", name)
}

/// Nanoseconds in a day.
pub const NANOS_PER_DAY: i128 = 86_400_000_000_000;

/// When an invite code created at `now` expires: `days` days later, or
/// never when no number of days is given.
pub open spec fn invite_expiry_at(now: int, days: Option<i32>) -> Option<int> {
    match days {
        Some(d) => Some(now + d * NANOS_PER_DAY),
        None => None,
    }
}

/// The expiry of an invite code created at instant `now`.
pub fn invite_expiry(now: i128, days: Option<i32>) -> (t: Option<i128>)
    requires
        days matches Some(d) ==> i128::MIN <= now + d * NANOS_PER_DAY <= i128::MAX,
    ensures
        t matches Some(x) ==> invite_expiry_at(now as int, days) == Some(x as int),
        t is None <==> days is None,
{
    match days {
        Some(d) => {
            let span: i128 = (d as i128) * NANOS_PER_DAY;
            Some(now + span)
        }
        None => None,
    }
}

/// An invite code as it is stored when created: active and unused.
pub open spec fn fresh_invite(group_id: u128, max_uses: Option<i32>, expires_at: Option<i128>) -> InviteRecord {
    InviteRecord { group_id, max_uses, current_uses: 0, expires_at, is_active: true }
}

/// A new invite code admits to its group at every instant up to its expiry,
/// unless it was created with a limit of no uses at all.
pub proof fn lemma_new_invite_accepted(group_id: u128, max_uses: Option<i32>, created: i128, days: Option<i32>, expiry: Option<i128>, now: int)
    requires
        days matches Some(d) ==> i128::MIN <= created + d * NANOS_PER_DAY <= i128::MAX,
        expiry is None <==> days is None,
        expiry matches Some(x) ==> invite_expiry_at(created as int, days) == Some(x as int),
        max_uses matches Some(m) ==> m > 0,
        days matches Some(d) ==> now <= created + d * NANOS_PER_DAY,
    ensures
        invite_verdict(Some(fresh_invite(group_id, max_uses, expiry)), now) is Accepted,
{
}

} // verus!
