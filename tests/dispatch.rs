use std::cell::RefCell;

use hiirc::{
    frame, translate_mode, Action, ChannelUserStatus, ConnectionStatus, Dispatch, Error, Event,
    Irc, IrcWrite, Message, MessageCode, NickServ, Prefix, PrefixUser, Settings,
};

fn user(nick: &str) -> Option<Prefix> {
    Some(Prefix::User(PrefixUser {
        nickname: nick.to_string(),
        username: nick.to_string(),
        hostname: "example.org".to_string(),
    }))
}

fn msg(prefix: Option<Prefix>, code: MessageCode, args: &[&str]) -> Event {
    Event::Message(Message {
        prefix,
        code,
        args: args.iter().map(|a| a.to_string()).collect(),
    })
}

fn names(channel: &str, list: &str) -> Event {
    msg(None, MessageCode::NamReply, &["me", "=", channel, list])
}

fn end_names(channel: &str) -> Event {
    msg(None, MessageCode::EndOfNames, &["me", channel, "End of /NAMES list."])
}

fn dispatcher() -> Dispatch {
    Dispatch::new(Settings::new("irc.example.org:6667", "me"))
}

/// The actions after the catch-all ones that every message gets.
fn tail(actions: Vec<Action>) -> Vec<Action> {
    assert!(matches!(actions[0], Action::Any));
    assert!(matches!(actions[1], Action::Msg));
    actions.into_iter().skip(2).collect()
}

#[test]
fn names_then_end_of_names_joins_channel() {
    let d = dispatcher();
    let mut irc = Irc::new();
    let first = d.feed(&mut irc, &names("#test", "alice @bob +carol"));
    assert!(tail(first).is_empty());
    let actions = tail(d.feed(&mut irc, &end_names("#test")));
    assert_eq!(actions.len(), 1);
    match &actions[0] {
        Action::ChannelJoin(c) => {
            assert_eq!(c.name(), "#test");
            let users = c.users();
            assert_eq!(users.len(), 3);
            assert_eq!(users[0].nickname(), "alice");
            assert_eq!(users[0].status(), ChannelUserStatus::Normal);
            assert_eq!(users[1].nickname(), "bob");
            assert_eq!(users[1].status(), ChannelUserStatus::Operator);
            assert_eq!(users[2].nickname(), "carol");
            assert_eq!(users[2].status(), ChannelUserStatus::Voice);
        }
        other => panic!("unexpected action {:?}", other),
    }
}

#[test]
fn ping_with_auto_pong_sends_pong_first() {
    let d = dispatcher();
    let mut irc = Irc::new();
    let actions = tail(d.feed(&mut irc, &msg(None, MessageCode::Ping, &["irc.example.org"])));
    assert_eq!(actions.len(), 2);
    match &actions[0] {
        Action::Send(line) => assert_eq!(line, "PONG irc.example.org\n"),
        other => panic!("unexpected action {:?}", other),
    }
    match &actions[1] {
        Action::Ping(server) => assert_eq!(server, "irc.example.org"),
        other => panic!("unexpected action {:?}", other),
    }
}

#[test]
fn ping_without_auto_pong_only_announces() {
    let d = Dispatch::new(Settings::new("irc.example.org:6667", "me").auto_ping(false));
    let mut irc = Irc::new();
    let actions = tail(d.feed(&mut irc, &msg(None, MessageCode::Ping, &["irc.example.org"])));
    assert_eq!(actions.len(), 1);
    assert!(matches!(&actions[0], Action::Ping(s) if s == "irc.example.org"));
}

#[test]
fn repeated_name_reply_adds_no_duplicates() {
    let d = dispatcher();
    let mut irc = Irc::new();
    d.feed(&mut irc, &names("#Test", "alice @bob"));
    d.feed(&mut irc, &names("#TEST", "alice @bob alice"));
    assert_eq!(irc.channels().len(), 1);
    let c = irc.channel("#test").unwrap();
    assert_eq!(c.name(), "#Test");
    assert_eq!(c.id(), "#test");
    assert_eq!(c.users().len(), 2);
}

#[test]
fn name_reply_skips_empty_tokens() {
    let d = dispatcher();
    let mut irc = Irc::new();
    d.feed(&mut irc, &names("#c", "alice  bob "));
    assert_eq!(irc.channel("#c").unwrap().users().len(), 2);
}

#[test]
fn end_of_names_for_unknown_channel_is_skipped() {
    let d = dispatcher();
    let mut irc = Irc::new();
    assert!(tail(d.feed(&mut irc, &end_names("#nowhere"))).is_empty());
}

#[test]
fn nick_change_reaches_only_channels_with_the_user() {
    let d = dispatcher();
    let mut irc = Irc::new();
    d.feed(&mut irc, &names("#a", "alice @bob"));
    d.feed(&mut irc, &names("#b", "+bob carol"));
    d.feed(&mut irc, &names("#c", "carol dave"));
    let actions = tail(d.feed(&mut irc, &msg(user("bob"), MessageCode::Nick, &["robert"])));
    assert!(matches!(&actions[0], Action::NickChange(a, b) if a == "bob" && b == "robert"));
    let a = irc.channel("#a").unwrap();
    assert!(a.user("bob").is_none());
    assert_eq!(a.user("robert").unwrap().status(), ChannelUserStatus::Operator);
    let b = irc.channel("#b").unwrap();
    assert!(b.user("bob").is_none());
    assert_eq!(b.user("robert").unwrap().status(), ChannelUserStatus::Voice);
    let c = irc.channel("#c").unwrap();
    assert!(c.user("robert").is_none());
    assert_eq!(c.users().len(), 2);
}

#[test]
fn quit_removes_user_everywhere() {
    let d = dispatcher();
    let mut irc = Irc::new();
    d.feed(&mut irc, &names("#a", "alice bob"));
    d.feed(&mut irc, &names("#b", "bob"));
    let actions = tail(d.feed(&mut irc, &msg(user("bob"), MessageCode::Quit, &["bye"])));
    assert!(matches!(&actions[0], Action::UserQuit(n) if n == "bob"));
    assert!(irc.channel("#a").unwrap().user("bob").is_none());
    assert!(irc.channel("#b").unwrap().user("bob").is_none());
    assert_eq!(irc.channel("#a").unwrap().users().len(), 1);
}

#[test]
fn mode_table_examples() {
    assert_eq!(translate_mode(ChannelUserStatus::Normal, "+o"), ChannelUserStatus::Operator);
    assert_eq!(translate_mode(ChannelUserStatus::Voice, "+o"), ChannelUserStatus::Operator);
    assert_eq!(translate_mode(ChannelUserStatus::Operator, "+v"), ChannelUserStatus::Operator);
    assert_eq!(translate_mode(ChannelUserStatus::HalfOperator, "-h"), ChannelUserStatus::Normal);
    assert_eq!(translate_mode(ChannelUserStatus::Voice, "-v"), ChannelUserStatus::Normal);
    assert_eq!(translate_mode(ChannelUserStatus::Normal, "+h"), ChannelUserStatus::HalfOperator);
    assert_eq!(translate_mode(ChannelUserStatus::Owner, "-o"), ChannelUserStatus::Normal);
    assert_eq!(translate_mode(ChannelUserStatus::Owner, "+v"), ChannelUserStatus::Owner);
    assert_eq!(translate_mode(ChannelUserStatus::Normal, "+b"), ChannelUserStatus::Normal);
    assert_eq!(translate_mode(ChannelUserStatus::Voice, "+oo"), ChannelUserStatus::Voice);
}

#[test]
fn mode_change_is_announced_only_when_status_changes() {
    let d = dispatcher();
    let mut irc = Irc::new();
    d.feed(&mut irc, &names("#c", "bob"));
    let actions = tail(d.feed(&mut irc, &msg(user("op"), MessageCode::Mode, &["#c", "+o", "bob"])));
    assert_eq!(actions.len(), 1);
    match &actions[0] {
        Action::UserModeChange(c, u, before, after) => {
            assert_eq!(c.name(), "#c");
            assert_eq!(u.nickname(), "bob");
            assert_eq!(*before, ChannelUserStatus::Normal);
            assert_eq!(*after, ChannelUserStatus::Operator);
        }
        other => panic!("unexpected action {:?}", other),
    }
    let again = tail(d.feed(&mut irc, &msg(user("op"), MessageCode::Mode, &["#c", "+o", "bob"])));
    assert!(again.is_empty());
}

#[test]
fn disconnect_clears_channels() {
    let d = dispatcher();
    let mut irc = Irc::new();
    d.feed(&mut irc, &names("#a", "alice"));
    assert!(irc.channel("#a").is_some());
    let actions = d.feed(&mut irc, &Event::Disconnected);
    assert!(matches!(actions[0], Action::Any));
    assert!(matches!(actions[1], Action::Disconnect));
    assert!(irc.channel("#a").is_none());
    assert!(irc.channels().is_empty());
    assert!(matches!(irc.status(), ConnectionStatus::Disconnected));
}

#[test]
fn lifecycle_events_set_status() {
    let d = dispatcher();
    let mut irc = Irc::new();
    assert!(matches!(irc.status(), ConnectionStatus::Connected));
    d.feed(&mut irc, &Event::Reconnecting);
    assert!(matches!(irc.status(), ConnectionStatus::Reconnecting));
    let actions = d.feed(&mut irc, &Event::Reconnected);
    assert!(matches!(irc.status(), ConnectionStatus::Connected));
    assert_eq!(actions.len(), 4);
    assert!(matches!(&actions[1], Action::Send(l) if l == "USER hiirc 8 * :hiirc\n"));
    assert!(matches!(&actions[2], Action::Send(l) if l == "NICK me\n"));
    assert!(matches!(actions[3], Action::Reconnect));
    let closed = d.feed(&mut irc, &Event::Closed("bye"));
    assert!(matches!(irc.status(), ConnectionStatus::Closed("bye")));
    assert!(matches!(closed[1], Action::Close("bye")));
}

#[test]
fn reconnect_without_auto_ident_sends_nothing() {
    let d = Dispatch::new(Settings::new("irc.example.org:6667", "me").auto_ident(false));
    let mut irc = Irc::new();
    let actions = d.feed(&mut irc, &Event::Reconnected);
    assert_eq!(actions.len(), 2);
    assert!(matches!(actions[1], Action::Reconnect));
}

#[test]
fn error_reply_is_announced_as_error() {
    let d = dispatcher();
    let mut irc = Irc::new();
    let actions = d.feed(&mut irc, &msg(None, MessageCode::Error, &["me", "nick in use"]));
    assert_eq!(actions.len(), 3);
    assert!(matches!(actions[2], Action::ErrorMsg));
}

#[test]
fn topic_events() {
    let d = dispatcher();
    let mut irc = Irc::new();
    let actions = tail(d.feed(&mut irc, &msg(None, MessageCode::RplTopic, &["me", "#Chan", "hello"])));
    match &actions[0] {
        Action::Topic(c, t) => {
            assert_eq!(c.name(), "#Chan");
            assert_eq!(t.as_deref(), Some("hello"));
        }
        other => panic!("unexpected action {:?}", other),
    }
    let changed = tail(d.feed(&mut irc, &msg(user("bob"), MessageCode::Topic, &["#chan", "new"])));
    match &changed[0] {
        Action::TopicChange(c, t) => {
            assert_eq!(c.name(), "#Chan");
            assert_eq!(t.as_deref(), Some("new"));
        }
        other => panic!("unexpected action {:?}", other),
    }
    let none = tail(d.feed(&mut irc, &msg(None, MessageCode::RplNoTopic, &["#chan", "No topic"])));
    assert!(matches!(&none[0], Action::Topic(_, None)));
    assert!(irc.channel("#CHAN").unwrap().topic().is_none());
    assert_eq!(irc.channels().len(), 1);
}

#[test]
fn join_part_and_kick() {
    let d = dispatcher();
    let mut irc = Irc::new();
    d.feed(&mut irc, &names("#c", "me"));
    let joined = tail(d.feed(&mut irc, &msg(user("bob"), MessageCode::Join, &["#C"])));
    assert!(matches!(&joined[0], Action::UserJoin(c, u) if c.users().len() == 2 && u.nickname() == "bob"));
    let parted = tail(d.feed(&mut irc, &msg(user("bob"), MessageCode::Part, &["#c", "later"])));
    assert!(matches!(&parted[0], Action::UserPart(c, u) if c.users().len() == 1 && u.nickname() == "bob"));
    d.feed(&mut irc, &msg(user("carol"), MessageCode::Join, &["#c"]));
    let kicked = tail(d.feed(&mut irc, &msg(user("me"), MessageCode::Kick, &["#c", "carol", "out"])));
    assert!(matches!(&kicked[0], Action::Kick(c, u) if c.users().len() == 1 && u.nickname() == "carol"));
    let missing = tail(d.feed(&mut irc, &msg(user("me"), MessageCode::Kick, &["#c", "carol"])));
    assert!(missing.is_empty());
}

#[test]
fn messages_to_channels_and_users() {
    let d = dispatcher();
    let mut irc = Irc::new();
    d.feed(&mut irc, &names("#c", "bob"));
    let in_channel = tail(d.feed(&mut irc, &msg(user("bob"), MessageCode::Privmsg, &["#c", "hi all"])));
    assert!(matches!(&in_channel[0], Action::ChannelMsg(c, u, t) if c.name() == "#c" && u.nickname() == "bob" && t == "hi all"));
    let notice = tail(d.feed(&mut irc, &msg(user("bob"), MessageCode::Notice, &["#c", "note"])));
    assert!(matches!(&notice[0], Action::ChannelNotice(_, _, t) if t == "note"));
    let stranger = tail(d.feed(&mut irc, &msg(user("eve"), MessageCode::Privmsg, &["#c", "hi"])));
    assert!(stranger.is_empty());
    let private = tail(d.feed(&mut irc, &msg(user("bob"), MessageCode::Privmsg, &["me", "psst"])));
    assert!(matches!(&private[0], Action::PrivateMsg(p, t) if p.nickname == "bob" && t == "psst"));
    let from_server = tail(d.feed(&mut irc, &msg(Some(Prefix::Server("srv".to_string())), MessageCode::Privmsg, &["me", "x"])));
    assert!(from_server.is_empty());
}

#[test]
fn malformed_messages_do_nothing() {
    let d = dispatcher();
    let mut irc = Irc::new();
    assert!(tail(d.feed(&mut irc, &msg(None, MessageCode::NamReply, &["me", "="]))).is_empty());
    assert!(tail(d.feed(&mut irc, &msg(None, MessageCode::Join, &["#c"]))).is_empty());
    assert!(tail(d.feed(&mut irc, &msg(None, MessageCode::Mode, &["#c", "+o"]))).is_empty());
    assert!(tail(d.feed(&mut irc, &msg(None, MessageCode::Ping, &[]))).is_empty());
    assert!(irc.channels().is_empty());
    let welcome = tail(d.feed(&mut irc, &msg(None, MessageCode::Welcome, &["me", "hi"])));
    assert!(matches!(welcome[0], Action::Welcome));
    assert_eq!(d.feed(&mut irc, &Event::Other).len(), 1);
}

struct Recorder {
    lines: RefCell<Vec<String>>,
}

impl IrcWrite for Recorder {
    fn send_line(&self, line: String) -> Result<(), Error> {
        self.lines.borrow_mut().push(line);
        Ok(())
    }
}

impl NickServ for Recorder {}

fn recorder() -> Recorder {
    Recorder { lines: RefCell::new(Vec::new()) }
}

#[test]
fn line_break_is_refused_and_nothing_sent() {
    let r = recorder();
    assert!(matches!(r.privmsg("#c", "one\ntwo"), Err(Error::Multiline)));
    assert!(matches!(r.raw("PING a\rb"), Err(Error::Multiline)));
    assert!(matches!(r.nick("bad\nnick"), Err(Error::Multiline)));
    assert!(r.lines.borrow().is_empty());
    assert!(matches!(frame("x\ny"), Err(Error::Multiline)));
}

#[test]
fn commands_are_framed() {
    let r = recorder();
    r.nick("me").unwrap();
    r.user("u", "Real Name").unwrap();
    r.ping("srv").unwrap();
    r.pong("srv").unwrap();
    r.pass("secret").unwrap();
    r.privmsg("#c", "hello there").unwrap();
    r.notice("bob", "hey").unwrap();
    r.join("#c", None).unwrap();
    r.join("#c", Some("key")).unwrap();
    r.part("#c", None).unwrap();
    r.part("#c", Some("bye")).unwrap();
    r.quit(None).unwrap();
    r.quit(Some("gone")).unwrap();
    r.get_topic("#c").unwrap();
    r.set_topic("#c", "new topic").unwrap();
    r.kick("#c", "bob").unwrap();
    r.identify("pw").unwrap();
    let expected = vec![
        "NICK me\n",
        "USER u 8 * :Real Name\n",
        "PING srv\n",
        "PONG srv\n",
        "PASS secret\n",
        "PRIVMSG #c :hello there\n",
        "NOTICE bob :hey\n",
        "JOIN #c\n",
        "JOIN #c key\n",
        "PART #c\n",
        "PART #c :bye\n",
        "QUIT :No message\n",
        "QUIT :gone\n",
        "TOPIC #c\n",
        "TOPIC #c :new topic\n",
        "KICK #c bob\n",
        "PRIVMSG nickserv :identify pw\n",
    ];
    assert_eq!(*r.lines.borrow(), expected);
    assert_eq!(frame("abc").unwrap(), "abc\n");
}

#[test]
fn login_lines_follow_settings() {
    let d = dispatcher();
    assert_eq!(d.login_lines().unwrap(), vec!["NICK me\n", "USER hiirc 8 * :hiirc\n"]);
    let with_pass = Dispatch::new(
        Settings::new("srv:6667", "me").password("pw").username("u").realname("R N"),
    );
    assert_eq!(
        with_pass.login_lines().unwrap(),
        vec!["PASS pw\n", "NICK me\n", "USER u 8 * :R N\n"]
    );
    let bad = Dispatch::new(Settings::new("srv:6667", "me\nQUIT"));
    assert!(matches!(bad.login_lines(), Err(Error::Multiline)));
}

#[test]
fn settings_defaults() {
    let s = Settings::new("srv:6667", "me");
    assert_eq!(s.addr(), "srv:6667");
    assert_eq!(s.get_nickname(), "me");
    assert_eq!(s.get_username(), "hiirc");
    assert_eq!(s.get_realname(), "hiirc");
    assert_eq!(s.get_password(), "");
    assert!(s.get_auto_ident());
    assert!(s.get_auto_ping());
}

#[test]
fn error_descriptions() {
    assert_eq!(Error::Multiline.description(), "Message contains a line break");
    assert!(Error::Closed.io_error().is_none());
    let io = Error::from(std::io::Error::new(std::io::ErrorKind::Other, "boom"));
    assert!(io.io_error().is_some());
}
