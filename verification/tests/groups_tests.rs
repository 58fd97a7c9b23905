use gitrust::error::ServiceError;
use gitrust::groups::{
    check_group_name, check_invite, check_not_member, group_name_taken, group_not_found, group_url, invite_expiry,
    is_member, is_owner, new_invite_code, GroupMemberRow, InviteRecord, NANOS_PER_DAY,
};

fn invite(max_uses: Option<i32>, current_uses: i32, expires_at: Option<i128>, is_active: bool) -> Option<InviteRecord> {
    Some(InviteRecord { group_id: 99, max_uses, current_uses, expires_at, is_active })
}

fn msg(r: Result<u128, ServiceError>) -> String {
    match r {
        Err(ServiceError::BadRequest(m)) => m,
        other => panic!("unexpected {:?}", other),
    }
}

#[test]
fn group_name_rules() {
    assert!(check_group_name("rustaceans").is_ok());
    assert!(check_group_name("a-b_c").is_ok());
    assert_eq!(check_group_name("ab").unwrap_err(), ServiceError::BadRequest("Group name must be 3-128 characters.".into()));
    assert!(check_group_name(&"g".repeat(128)).is_ok());
    assert_eq!(check_group_name(&"g".repeat(129)).unwrap_err(),
        ServiceError::BadRequest("Group name must be 3-128 characters.".into()));
    assert_eq!(check_group_name("with space").unwrap_err(),
        ServiceError::BadRequest("Group name can only contain letters, numbers, -, and _.".into()));
    assert_eq!(check_group_name("dots.not.ok").unwrap_err(),
        ServiceError::BadRequest("Group name can only contain letters, numbers, -, and _.".into()));
    assert_eq!(group_name_taken(), ServiceError::Conflict("Group name already taken.".into()));
    assert_eq!(group_not_found(), ServiceError::NotFound("Group not found.".into()));
}

#[test]
fn invite_verdicts_in_order() {
    let now: i128 = 1_000_000;
    assert_eq!(check_invite(invite(None, 0, None, true), now).unwrap(), 99);
    assert_eq!(msg(check_invite(None, now)), "Invalid invite code.");
    assert_eq!(msg(check_invite(invite(Some(1), 5, Some(0), false), now)), "This invite code is no longer active.");
    assert_eq!(msg(check_invite(invite(Some(3), 3, Some(0), true), now)), "This invite code has reached its maximum uses.");
    assert_eq!(msg(check_invite(invite(Some(0), 0, None, true), now)), "This invite code has reached its maximum uses.");
    assert_eq!(msg(check_invite(invite(Some(3), 2, Some(now - 1), true), now)), "This invite code has expired.");
    assert_eq!(check_invite(invite(Some(3), 2, Some(now), true), now).unwrap(), 99);
}

#[test]
fn new_invites_admit_until_they_expire() {
    let created: i128 = 5_000;
    let exp = invite_expiry(created, Some(7));
    assert_eq!(exp, Some(created + 7 * NANOS_PER_DAY));
    assert_eq!(invite_expiry(created, None), None);
    assert_eq!(invite_expiry(0, Some(-1)), Some(-86_400_000_000_000));
    let fresh = invite(Some(2), 0, exp, true);
    assert!(check_invite(fresh, created + 7 * NANOS_PER_DAY).is_ok());
    let fresh = invite(Some(2), 0, exp, true);
    assert!(check_invite(fresh, created + 7 * NANOS_PER_DAY + 1).is_err());
}

#[test]
fn joining_twice_is_refused() {
    assert!(check_not_member(false).is_ok());
    assert_eq!(check_not_member(true).unwrap_err(),
        ServiceError::BadRequest("You are already a member of this group.".into()));
}

fn row(user_id: u128, role: &str) -> GroupMemberRow {
    GroupMemberRow { user_id, role: role.into(), joined_at: 0, username: format!("u{}", user_id), display_name: String::new() }
}

#[test]
fn membership_and_ownership() {
    let members = vec![row(1, "owner"), row(2, "member")];
    assert!(is_member(&members, Some(1)));
    assert!(is_member(&members, Some(2)));
    assert!(!is_member(&members, Some(3)));
    assert!(!is_member(&members, None));
    assert!(is_owner(&members, Some(1)));
    assert!(!is_owner(&members, Some(2)));
    assert!(!is_owner(&members, None));
    assert!(!is_owner(&Vec::new(), Some(1)));
}

#[test]
fn invite_codes_are_twelve_alphanumerics() {
    let a = new_invite_code();
    let b = new_invite_code();
    assert_eq!(a.len(), 12);
    assert!(a.chars().all(|c| c.is_ascii_alphanumeric()));
    assert_ne!(a, b);
}

#[test]
fn group_page_address() {
    assert_eq!(group_url("rustaceans"), "/groups/rustaceans");
}
