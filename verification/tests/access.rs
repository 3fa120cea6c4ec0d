use std::collections::HashSet;

use ts3_status::access::{check_access, Access};

fn users() -> HashSet<u64> {
    HashSet::from([10, 11])
}

fn chats() -> HashSet<i64> {
    HashSet::from([-100, 7])
}

#[test]
fn listed_user_is_allowed_in_any_chat() {
    assert_eq!(check_access(&users(), &chats(), Some(10), Some(999)), Access::Allowed);
    assert_eq!(check_access(&users(), &chats(), Some(11), None), Access::Allowed);
}

#[test]
fn anyone_is_allowed_in_a_listed_chat() {
    assert_eq!(check_access(&users(), &chats(), Some(999), Some(-100)), Access::Allowed);
    assert_eq!(check_access(&users(), &chats(), None, Some(7)), Access::Allowed);
}

#[test]
fn listed_user_in_listed_chat_is_allowed() {
    assert_eq!(check_access(&users(), &chats(), Some(10), Some(7)), Access::Allowed);
}

#[test]
fn unlisted_pair_is_denied() {
    assert_eq!(check_access(&users(), &chats(), Some(12), Some(8)), Access::Denied);
}

#[test]
fn unknown_identity_is_denied() {
    assert_eq!(check_access(&users(), &chats(), None, None), Access::Denied);
    assert_eq!(check_access(&users(), &chats(), None, Some(8)), Access::Denied);
    assert_eq!(check_access(&users(), &chats(), Some(12), None), Access::Denied);
}

#[test]
fn user_and_chat_lists_are_kept_apart() {
    let users = HashSet::from([7u64]);
    let chats = HashSet::from([10i64]);
    assert_eq!(check_access(&users, &chats, Some(10), Some(7)), Access::Denied);
    assert_eq!(check_access(&users, &chats, Some(7), Some(7)), Access::Allowed);
    assert_eq!(check_access(&users, &chats, Some(10), Some(10)), Access::Allowed);
}

#[test]
fn empty_lists_deny_everyone() {
    let users = HashSet::new();
    let chats = HashSet::new();
    assert_eq!(check_access(&users, &chats, Some(0), Some(0)), Access::Denied);
    assert_eq!(check_access(&users, &chats, Some(u64::MAX), Some(i64::MIN)), Access::Denied);
    assert_eq!(check_access(&users, &chats, None, None), Access::Denied);
}
