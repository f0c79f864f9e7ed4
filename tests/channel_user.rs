use std::sync::Arc;

use hiirc::{Channel, ChannelUser, ChannelUserStatus};

#[test]
fn test_user_from_raw_norm() {
    let user = ChannelUser::from_raw("TEST");
    assert_eq!(&*user.nickname(), "TEST");
    assert_eq!(user.status(), ChannelUserStatus::Normal);
}

#[test]
fn test_user_from_raw_voice() {
    let user = ChannelUser::from_raw("+TEst");
    assert_eq!(&*user.nickname(), "TEst");
    assert_eq!(user.status(), ChannelUserStatus::Voice);
}

#[test]
fn test_user_from_raw_op() {
    let user = ChannelUser::from_raw("@test");
    assert_eq!(&*user.nickname(), "test");
    assert_eq!(user.status(), ChannelUserStatus::Operator);
}

#[test]
fn test_user_from_raw_owner() {
    let user = ChannelUser::from_raw("&test");
    assert_eq!(&*user.nickname(), "test");
    assert_eq!(user.status(), ChannelUserStatus::Owner);
}

#[test]
fn test_channel() {
    let mut channel = Channel::new("#testchannel");
    channel.set_topic("ABC DEF");

    let usr1 = Arc::new(ChannelUser::new("abc1", ChannelUserStatus::Normal));
    let usr2 = Arc::new(ChannelUser::new("abc2", ChannelUserStatus::Operator));

    channel.add_user(usr1.clone());
    channel.add_user(usr2.clone());

    assert_eq!(channel.name(), "#testchannel");
    assert_eq!(channel.topic(), Some(Arc::new("ABC DEF".into())));
    assert_eq!(channel.user("abc1").unwrap().nickname(), usr1.nickname());
    assert_eq!(channel.user("abc2").unwrap().nickname(), usr2.nickname());
}

#[test]
fn from_raw_other_sigils() {
    let owner = ChannelUser::from_raw("~boss");
    assert_eq!(owner.nickname(), "boss");
    assert_eq!(owner.status(), ChannelUserStatus::Owner);
    let half = ChannelUser::from_raw("%helper");
    assert_eq!(half.nickname(), "helper");
    assert_eq!(half.status(), ChannelUserStatus::HalfOperator);
    let plain = ChannelUser::from_raw("alice");
    assert_eq!(plain.nickname(), "alice");
    assert_eq!(plain.status(), ChannelUserStatus::Normal);
}

#[test]
fn from_raw_strips_only_one_sigil() {
    let user = ChannelUser::from_raw("@+alice");
    assert_eq!(user.nickname(), "+alice");
    assert_eq!(user.status(), ChannelUserStatus::Operator);
}

#[test]
fn from_raw_empty_and_bare_sigil() {
    let empty = ChannelUser::from_raw("");
    assert_eq!(empty.nickname(), "");
    assert_eq!(empty.status(), ChannelUserStatus::Normal);
    let bare = ChannelUser::from_raw("@");
    assert_eq!(bare.nickname(), "");
    assert_eq!(bare.status(), ChannelUserStatus::Operator);
}

#[test]
fn channel_key_is_lowercased_name() {
    let channel = Channel::new("#TeSt");
    assert_eq!(channel.name(), "#TeSt");
    assert_eq!(channel.id(), "#test");
}

#[test]
fn channel_refuses_duplicate_nickname() {
    let mut channel = Channel::new("#c");
    channel.add_user(Arc::new(ChannelUser::new("bob", ChannelUserStatus::Voice)));
    channel.add_user(Arc::new(ChannelUser::new("bob", ChannelUserStatus::Operator)));
    channel.add_raw_user("@bob");
    assert_eq!(channel.users().len(), 1);
    assert_eq!(channel.user("bob").unwrap().status(), ChannelUserStatus::Voice);
}

#[test]
fn channel_empty_topic_clears() {
    let mut channel = Channel::new("#c");
    assert_eq!(channel.topic(), None);
    channel.set_topic("hello");
    assert_eq!(channel.topic(), Some(Arc::new("hello".to_string())));
    channel.set_topic("");
    assert_eq!(channel.topic(), None);
}

#[test]
fn channel_remove_user() {
    let mut channel = Channel::new("#c");
    channel.add_raw_user("alice");
    channel.add_raw_user("+bob");
    let removed = channel.remove_user("bob").unwrap();
    assert_eq!(removed.nickname(), "bob");
    assert_eq!(removed.status(), ChannelUserStatus::Voice);
    assert!(channel.remove_user("bob").is_none());
    assert!(channel.user("bob").is_none());
    assert_eq!(channel.users().len(), 1);
    assert_eq!(channel.users()[0].nickname(), "alice");
}

#[test]
fn channel_user_is_case_sensitive() {
    let mut channel = Channel::new("#c");
    channel.add_raw_user("Alice");
    assert!(channel.user("alice").is_none());
    assert!(channel.user("Alice").is_some());
}

#[test]
fn channel_rename_drops_stale_member() {
    let mut channel = Channel::new("#c");
    channel.add_raw_user("@bob");
    channel.add_raw_user("carol");
    channel.add_raw_user("dave");
    channel.rename_user("bob", "dave");
    let users = channel.users();
    assert_eq!(users.len(), 2);
    assert_eq!(users[0].nickname(), "dave");
    assert_eq!(users[0].status(), ChannelUserStatus::Operator);
    assert_eq!(users[1].nickname(), "carol");
}

#[test]
fn channel_update_user_mode() {
    let mut channel = Channel::new("#c");
    channel.add_raw_user("bob");
    assert_eq!(
        channel.update_user_mode("bob", "+o"),
        Some((ChannelUserStatus::Normal, ChannelUserStatus::Operator))
    );
    assert_eq!(channel.user("bob").unwrap().status(), ChannelUserStatus::Operator);
    assert_eq!(channel.update_user_mode("nobody", "+o"), None);
}

#[test]
fn user_setters() {
    let mut user = ChannelUser::new("a", ChannelUserStatus::Normal);
    user.set_nickname("b");
    user.set_status(ChannelUserStatus::Voice);
    assert_eq!(user.nickname(), "b");
    assert_eq!(user.status(), ChannelUserStatus::Voice);
}
