//! The dispatcher: what each inbound event does to the channel store and
//! which actions it calls for, in order.

use vstd::prelude::*;
use vstd::string::*;

use crate::channel::{find_member, Channel, ChannelView};
use crate::command::{
    frame, has_line_break, nick_command, nick_text, pass_command, pass_text, pong_command, pong_text,
    user_command, user_text, Error,
};
use crate::message::{
    args_of, sender_of, Event, Message, MessageCode, Prefix, PrefixUser, PrefixUserView,
};
use crate::settings::{Settings, SettingsView};
use crate::state::{
    lookup, removed_everywhere, renamed_everywhere, topic_set, user_added, user_moded,
    user_removed, with_channel, ConnectionStatus, Irc, IrcView,
};
use crate::text::{lower_of, split_spaces, split_spaces_of, to_lower};
use crate::user::{next_status, ChannelUser, ChannelUserStatus, UserView};

verus! {

/// What the handler is to be told, or what is to be sent, in answer to one
/// event. The channels and members are copies taken once the event has been
/// applied.
#[derive(Clone, Debug)]
pub enum Action {
    /// Any event at all; always first.
    Any,
    /// Any message from the server.
    Msg,
    /// An error reply from the server.
    ErrorMsg,
    /// A line to put on the wire, framed.
    Send(String),
    /// The connection was closed, for the given reason.
    Close(&'static str),
    /// The connection dropped.
    Disconnect,
    /// An attempt to reconnect is under way.
    Reconnecting,
    /// The connection is back.
    Reconnect,
    /// The server welcomed the client.
    Welcome,
    /// The client joined a channel, whose member list is now complete.
    ChannelJoin(Channel),
    /// A user joined a channel.
    UserJoin(Channel, ChannelUser),
    /// A user left a channel.
    UserPart(Channel, ChannelUser),
    /// A user quit, by nickname.
    UserQuit(String),
    /// A message to a channel.
    ChannelMsg(Channel, ChannelUser, String),
    /// A notice to a channel.
    ChannelNotice(Channel, ChannelUser, String),
    /// A private message.
    PrivateMsg(PrefixUser, String),
    /// A private notice.
    PrivateNotice(PrefixUser, String),
    /// The topic of a channel, asked for or seen on joining.
    Topic(Channel, Option<String>),
    /// Someone changed the topic of a channel.
    TopicChange(Channel, Option<String>),
    /// A user changed nickname, from the first to the second.
    NickChange(String, String),
    /// A user was kicked from a channel.
    Kick(Channel, ChannelUser),
    /// The server pinged.
    Ping(String),
    /// The server answered a ping.
    Pong(String),
    /// The status of a member changed, from the first to the second.
    UserModeChange(Channel, ChannelUser, ChannelUserStatus, ChannelUserStatus),
}

/// An action as a value.
pub enum ActionView {
    Any,
    Msg,
    ErrorMsg,
    Send(Seq<char>),
    Close(Seq<char>),
    Disconnect,
    Reconnecting,
    Reconnect,
    Welcome,
    ChannelJoin(ChannelView),
    UserJoin(ChannelView, UserView),
    UserPart(ChannelView, UserView),
    UserQuit(Seq<char>),
    ChannelMsg(ChannelView, UserView, Seq<char>),
    ChannelNotice(ChannelView, UserView, Seq<char>),
    PrivateMsg(PrefixUserView, Seq<char>),
    PrivateNotice(PrefixUserView, Seq<char>),
    Topic(ChannelView, Option<Seq<char>>),
    TopicChange(ChannelView, Option<Seq<char>>),
    NickChange(Seq<char>, Seq<char>),
    Kick(ChannelView, UserView),
    Ping(Seq<char>),
    Pong(Seq<char>),
    UserModeChange(ChannelView, UserView, ChannelUserStatus, ChannelUserStatus),
}

/// An optional string as a value.
pub open spec fn opt_view(s: Option<String>) -> Option<Seq<char>> {
    match s {
        Some(t) => Some(t@),
        None => None,
    }
}

impl View for Action {
    type V = ActionView;

    open spec fn view(&self) -> ActionView {
        match self {
            Action::Any => ActionView::Any,
            Action::Msg => ActionView::Msg,
            Action::ErrorMsg => ActionView::ErrorMsg,
            Action::Send(l) => ActionView::Send(l@),
            Action::Close(r) => ActionView::Close(r@),
            Action::Disconnect => ActionView::Disconnect,
            Action::Reconnecting => ActionView::Reconnecting,
            Action::Reconnect => ActionView::Reconnect,
            Action::Welcome => ActionView::Welcome,
            Action::ChannelJoin(c) => ActionView::ChannelJoin(c@),
            Action::UserJoin(c, u) => ActionView::UserJoin(c@, u@),
            Action::UserPart(c, u) => ActionView::UserPart(c@, u@),
            Action::UserQuit(n) => ActionView::UserQuit(n@),
            Action::ChannelMsg(c, u, t) => ActionView::ChannelMsg(c@, u@, t@),
            Action::ChannelNotice(c, u, t) => ActionView::ChannelNotice(c@, u@, t@),
            Action::PrivateMsg(p, t) => ActionView::PrivateMsg(p@, t@),
            Action::PrivateNotice(p, t) => ActionView::PrivateNotice(p@, t@),
            Action::Topic(c, t) => ActionView::Topic(c@, opt_view(*t)),
            Action::TopicChange(c, t) => ActionView::TopicChange(c@, opt_view(*t)),
            Action::NickChange(a, b) => ActionView::NickChange(a@, b@),
            Action::Kick(c, u) => ActionView::Kick(c@, u@),
            Action::Ping(s) => ActionView::Ping(s@),
            Action::Pong(s) => ActionView::Pong(s@),
            Action::UserModeChange(c, u, a, b) => ActionView::UserModeChange(c@, u@, *a, *b),
        }
    }
}

/// A list of actions as values.
pub open spec fn actions_view(v: Vec<Action>) -> Seq<ActionView> {
    v@.map_values(|a: Action| a@)
}

/// The channels after the members of a name list were added to the channel
/// filed under `id`, one per non-empty piece.
pub open spec fn names_added(chs: Seq<ChannelView>, id: Seq<char>, pieces: Seq<Seq<char>>) -> Seq<
    ChannelView,
>
    decreases pieces.len(),
{
    if pieces.len() == 0 {
        chs
    } else {
        let before = names_added(chs, id, pieces.drop_last());
        if pieces.last().len() == 0 {
            before
        } else {
            user_added(before, id, pieces.last())
        }
    }
}

/// A name reply: the channel named by the third argument is created if
/// needed, and each space-separated token of the last argument becomes a
/// member of it. Nothing is announced.
pub open spec fn name_reply_effect(chs: Seq<ChannelView>, args: Seq<Seq<char>>) -> Seq<ChannelView> {
    if args.len() < 3 {
        chs
    } else {
        let name = args[2];
        names_added(with_channel(chs, name), lower_of(name), split_spaces(args.last()))
    }
}

/// The end of a name list: the channel named by the second argument is
/// announced as joined, if it is known.
pub open spec fn end_names_actions(chs: Seq<ChannelView>, args: Seq<Seq<char>>) -> Seq<ActionView> {
    if args.len() < 2 {
        seq![]
    } else {
        match lookup(chs, lower_of(args[1])) {
            Some(c) => seq![ActionView::ChannelJoin(c)],
            None => seq![],
        }
    }
}

/// The channels after a topic event about the channel called `name`: the
/// channel is created if needed and its topic set.
pub open spec fn topic_effect(chs: Seq<ChannelView>, name: Seq<char>, topic: Seq<char>) -> Seq<
    ChannelView,
> {
    topic_set(with_channel(chs, name), lower_of(name), topic)
}

/// The announcement of the topic of the channel called `name`: a topic change
/// or a topic reply.
pub open spec fn topic_announce(chs: Seq<ChannelView>, name: Seq<char>, change: bool) -> Seq<
    ActionView,
> {
    match lookup(chs, lower_of(name)) {
        Some(c) => if change {
            seq![ActionView::TopicChange(c, c.topic)]
        } else {
            seq![ActionView::Topic(c, c.topic)]
        },
        None => seq![],
    }
}

/// A topic event naming the channel in argument `pos` and the topic in the
/// last argument; with `cleared` the topic is removed instead.
pub open spec fn topic_step(
    chs: Seq<ChannelView>,
    args: Seq<Seq<char>>,
    pos: int,
    change: bool,
    cleared: bool,
) -> (Seq<ChannelView>, Seq<ActionView>) {
    if args.len() <= pos {
        (chs, seq![])
    } else {
        let name = args[pos];
        let topic = if cleared {
            Seq::empty()
        } else {
            args.last()
        };
        let after = topic_effect(chs, name, topic);
        (after, topic_announce(after, name, change))
    }
}

/// A join: the sender becomes a member of the channel in the first argument,
/// if that channel is known, and is announced.
pub open spec fn join_step(
    chs: Seq<ChannelView>,
    sender: Option<PrefixUserView>,
    args: Seq<Seq<char>>,
) -> (Seq<ChannelView>, Seq<ActionView>) {
    match sender {
        Some(u) if args.len() >= 1 => {
            let id = lower_of(args[0]);
            let after = user_added(chs, id, u.nickname);
            let actions = match lookup(after, id) {
                Some(c) => match find_member(c.users, u.nickname) {
                    Some(m) => seq![ActionView::UserJoin(c, m)],
                    None => seq![],
                },
                None => seq![],
            };
            (after, actions)
        },
        _ => (chs, seq![]),
    }
}

/// The member `nick` is taken out of the channel filed under `id`; if it was
/// there, the channel as it is now and the member that left are announced,
/// as a kick when `kicked` holds and as a part otherwise.
pub open spec fn leave_step(
    chs: Seq<ChannelView>,
    id: Seq<char>,
    nick: Seq<char>,
    kicked: bool,
) -> (Seq<ChannelView>, Seq<ActionView>) {
    let after = user_removed(chs, id, nick);
    let removed = match lookup(chs, id) {
        Some(c0) => find_member(c0.users, nick),
        None => None,
    };
    let actions = match removed {
        Some(m) => match lookup(after, id) {
            Some(c) => if kicked {
                seq![ActionView::Kick(c, m)]
            } else {
                seq![ActionView::UserPart(c, m)]
            },
            None => seq![],
        },
        None => seq![],
    };
    (after, actions)
}

/// A part: the sender leaves the channel in the first argument.
pub open spec fn part_step(
    chs: Seq<ChannelView>,
    sender: Option<PrefixUserView>,
    args: Seq<Seq<char>>,
) -> (Seq<ChannelView>, Seq<ActionView>) {
    match sender {
        Some(u) if args.len() >= 1 => leave_step(chs, lower_of(args[0]), u.nickname, false),
        _ => (chs, seq![]),
    }
}

/// A kick: the nickname in the second argument leaves the channel in the
/// first.
pub open spec fn kick_step(chs: Seq<ChannelView>, args: Seq<Seq<char>>) -> (
    Seq<ChannelView>,
    Seq<ActionView>,
) {
    if args.len() < 2 {
        (chs, seq![])
    } else {
        leave_step(chs, lower_of(args[0]), args[1], true)
    }
}

/// Whether a message target names a channel.
pub open spec fn is_channel_target(target: Seq<char>) -> bool {
    target.len() > 0 && target[0] == '#'
}

/// A message or a notice: to a channel, it is announced with the channel and
/// the sending member, and dropped if either is unknown; otherwise it is
/// private and announced with the sender.
pub open spec fn message_actions(
    chs: Seq<ChannelView>,
    sender: Option<PrefixUserView>,
    args: Seq<Seq<char>>,
    notice: bool,
) -> Seq<ActionView> {
    match sender {
        Some(u) if args.len() >= 1 => {
            let text = args.last();
            let target = args[0];
            if is_channel_target(target) {
                match lookup(chs, lower_of(target)) {
                    Some(c) => match find_member(c.users, u.nickname) {
                        Some(m) => if notice {
                            seq![ActionView::ChannelNotice(c, m, text)]
                        } else {
                            seq![ActionView::ChannelMsg(c, m, text)]
                        },
                        None => seq![],
                    },
                    None => seq![],
                }
            } else if notice {
                seq![ActionView::PrivateNotice(u, text)]
            } else {
                seq![ActionView::PrivateMsg(u, text)]
            }
        },
        _ => seq![],
    }
}

/// A quit: the sender leaves every channel.
pub open spec fn quit_step(chs: Seq<ChannelView>, sender: Option<PrefixUserView>) -> (
    Seq<ChannelView>,
    Seq<ActionView>,
) {
    match sender {
        Some(u) => (removed_everywhere(chs, u.nickname), seq![ActionView::UserQuit(u.nickname)]),
        None => (chs, seq![]),
    }
}

/// A nick change: the sender takes the nickname in the last argument in
/// every channel.
pub open spec fn nick_step(
    chs: Seq<ChannelView>,
    sender: Option<PrefixUserView>,
    args: Seq<Seq<char>>,
) -> (Seq<ChannelView>, Seq<ActionView>) {
    match sender {
        Some(u) if args.len() >= 1 => (
            renamed_everywhere(chs, u.nickname, args.last()),
            seq![ActionView::NickChange(u.nickname, args.last())],
        ),
        _ => (chs, seq![]),
    }
}

/// The line that carries `text`, or none if `text` holds a line break.
pub open spec fn wire(text: Seq<char>) -> Seq<ActionView> {
    if has_line_break(text) {
        seq![]
    } else {
        seq![ActionView::Send(text.push('\n'))]
    }
}

/// A ping: with automatic replies on, a pong goes out first; the ping is
/// announced either way.
pub open spec fn ping_actions(auto_ping: bool, args: Seq<Seq<char>>) -> Seq<ActionView> {
    if args.len() < 1 {
        seq![]
    } else {
        let server = args.last();
        let reply = if auto_ping {
            wire(pong_text(server))
        } else {
            seq![]
        };
        reply.push(ActionView::Ping(server))
    }
}

/// A pong is announced.
pub open spec fn pong_actions(args: Seq<Seq<char>>) -> Seq<ActionView> {
    if args.len() < 1 {
        seq![]
    } else {
        seq![ActionView::Pong(args.last())]
    }
}

/// A mode change: the delta in the second argument is applied to the member
/// in the third argument of the channel in the first; it is announced only
/// if the status really changed.
pub open spec fn mode_step(chs: Seq<ChannelView>, args: Seq<Seq<char>>) -> (
    Seq<ChannelView>,
    Seq<ActionView>,
) {
    if args.len() < 3 {
        (chs, seq![])
    } else {
        let id = lower_of(args[0]);
        let mode = args[1];
        let nick = args[2];
        let after = user_moded(chs, id, nick, mode);
        let before = match lookup(chs, id) {
            Some(c0) => find_member(c0.users, nick),
            None => None,
        };
        let actions = match before {
            Some(m0) => if m0.status != next_status(m0.status, mode) {
                match lookup(after, id) {
                    Some(c) => match find_member(c.users, nick) {
                        Some(m) => seq![ActionView::UserModeChange(c, m, m0.status, m.status)],
                        None => seq![],
                    },
                    None => seq![],
                }
            } else {
                seq![]
            },
            None => seq![],
        };
        (after, actions)
    }
}

/// What one message does to the channels, and what it announces after the
/// catch-all announcements.
pub open spec fn message_step(s: SettingsView, chs: Seq<ChannelView>, msg: Message) -> (
    Seq<ChannelView>,
    Seq<ActionView>,
) {
    let args = args_of(&msg);
    let sender = sender_of(&msg);
    match msg.code {
        MessageCode::Welcome => (chs, seq![ActionView::Welcome]),
        MessageCode::NamReply => (name_reply_effect(chs, args), seq![]),
        MessageCode::EndOfNames => (chs, end_names_actions(chs, args)),
        MessageCode::Topic => topic_step(chs, args, 0, true, false),
        MessageCode::RplTopic => topic_step(chs, args, 1, false, false),
        MessageCode::RplNoTopic => topic_step(chs, args, 0, false, true),
        MessageCode::Join => join_step(chs, sender, args),
        MessageCode::Part => part_step(chs, sender, args),
        MessageCode::Privmsg => (chs, message_actions(chs, sender, args, false)),
        MessageCode::Notice => (chs, message_actions(chs, sender, args, true)),
        MessageCode::Quit => quit_step(chs, sender),
        MessageCode::Nick => nick_step(chs, sender, args),
        MessageCode::Kick => kick_step(chs, args),
        MessageCode::Ping => (chs, ping_actions(s.auto_ping, args)),
        MessageCode::Pong => (chs, pong_actions(args)),
        MessageCode::Mode => mode_step(chs, args),
        MessageCode::Error | MessageCode::Other => (chs, seq![]),
    }
}

/// The lines that identify the client again after a reconnection, when
/// automatic identification is on.
pub open spec fn ident_actions(s: SettingsView) -> Seq<ActionView> {
    if s.auto_ident {
        wire(user_text(s.username, s.realname)) + wire(nick_text(s.nickname))
    } else {
        seq![]
    }
}

/// The commands that open a session: the server password if there is one,
/// then the nickname, then the user.
pub open spec fn login_texts(s: SettingsView) -> Seq<Seq<char>> {
    let head = if s.password.len() > 0 {
        seq![pass_text(s.password)]
    } else {
        seq![]
    };
    head + seq![nick_text(s.nickname), user_text(s.username, s.realname)]
}

/// What one event does to the store, and the actions it calls for, in order.
pub open spec fn step(s: SettingsView, st: IrcView, ev: Event) -> (IrcView, Seq<ActionView>) {
    match ev {
        Event::Closed(reason) => (
            IrcView { status: ConnectionStatus::Closed(reason), ..st },
            seq![ActionView::Any, ActionView::Close(reason@)],
        ),
        Event::Disconnected => (
            IrcView { channels: Seq::empty(), status: ConnectionStatus::Disconnected },
            seq![ActionView::Any, ActionView::Disconnect],
        ),
        Event::Reconnecting => (
            IrcView { status: ConnectionStatus::Reconnecting, ..st },
            seq![ActionView::Any, ActionView::Reconnecting],
        ),
        Event::Reconnected => (
            IrcView { status: ConnectionStatus::Connected, ..st },
            seq![ActionView::Any] + ident_actions(s) + seq![ActionView::Reconnect],
        ),
        Event::Message(msg) => {
            let (chs, actions) = message_step(s, st.channels, msg);
            let head = if msg.code == MessageCode::Error {
                seq![ActionView::Any, ActionView::Msg, ActionView::ErrorMsg]
            } else {
                seq![ActionView::Any, ActionView::Msg]
            };
            (IrcView { channels: chs, ..st }, head + actions)
        },
        Event::Other => (st, seq![ActionView::Any]),
    }
}

/// The copy of the channel filed under `id` that an action carries, if there
/// is such a channel.
fn snapshot(irc: &Irc, id: &str) -> (r: Option<Channel>)
    requires
        irc.wf(),
    ensures
        match r {
            Some(c) => lookup(irc@.channels, id@) == Some(c@) && c.wf(),
            None => lookup(irc@.channels, id@) is None,
        },
{
    match irc.get_channel_by_id(id) {
        Some(c) => Some(c.duplicate()),
        None => None,
    }
}

/// The copy of the member called `nickname` that an action carries, if there
/// is such a member.
fn member_snapshot(c: &Channel, nickname: &str) -> (r: Option<ChannelUser>)
    requires
        c.wf(),
    ensures
        match r {
            Some(u) => find_member(c@.users, nickname@) == Some(u@),
            None => find_member(c@.users, nickname@) is None,
        },
{
    match c.user(nickname) {
        Some(u) => Some(u.duplicate()),
        None => None,
    }
}

fn name_reply(irc: &mut Irc, msg: &Message)
    requires
        old(irc).wf(),
    ensures
        final(irc).wf(),
        final(irc)@ == (IrcView {
            channels: name_reply_effect(old(irc)@.channels, args_of(msg)),
            ..old(irc)@
        }),
{
    let n = msg.args.len();
    if n < 3 {
        return;
    }
    let ghost args = args_of(msg);
    let name = msg.args[2].as_str();
    let list = msg.args[n - 1].as_str();
    proof {
        assert(args[2] == name@);
        assert(args.last() == list@);
    }
    irc.ensure_channel_exists(name);
    let id = to_lower(name);
    let pieces = split_spaces_of(list);
    let ghost start = irc@.channels;
    let ghost all = split_spaces(list@);
    let mut i: usize = 0;
    while i < pieces.len()
        invariant
            irc.wf(),
            irc@.status == old(irc)@.status,
            i <= pieces@.len(),
            pieces@.map_values(|p: String| p@) == all,
            irc@.channels == names_added(start, id@, all.subrange(0, i as int)),
        decreases pieces@.len() - i,
    {
        proof {
            assert(all.subrange(0, i + 1).drop_last() =~= all.subrange(0, i as int));
            assert(all.subrange(0, i + 1).last() == pieces@[i as int]@);
        }
        let piece = pieces[i].as_str();
        if !piece.is_empty() {
            irc.channel_add_user(id.as_str(), piece);
        }
        i = i + 1;
    }
    proof {
        assert(all.subrange(0, pieces@.len() as int) =~= all);
    }
}

fn end_name_reply(irc: &Irc, msg: &Message) -> (r: Vec<Action>)
    requires
        irc.wf(),
    ensures
        actions_view(r) == end_names_actions(irc@.channels, args_of(msg)),
{
    let mut out: Vec<Action> = Vec::new();
    if msg.args.len() < 2 {
        proof {
            assert(actions_view(out) =~= seq![]);
        }
        return out;
    }
    let id = to_lower(msg.args[1].as_str());
    proof {
        assert(args_of(msg)[1] == msg.args@[1]@);
    }
    match snapshot(irc, id.as_str()) {
        Some(c) => {
            out.push(Action::ChannelJoin(c));
        },
        None => {},
    }
    proof {
        assert(actions_view(out) =~= end_names_actions(irc@.channels, args_of(msg)));
    }
    out
}

/// The sender of a message, if its prefix names a user.
fn sender(msg: &Message) -> (r: Option<&PrefixUser>)
    ensures
        match r {
            Some(u) => sender_of(msg) == Some(u@),
            None => sender_of(msg) is None,
        },
{
    match &msg.prefix {
        Some(Prefix::User(u)) => Some(u),
        _ => None,
    }
}

/// A one-action list, or an empty one.
fn one(a: Option<Action>) -> (r: Vec<Action>)
    ensures
        actions_view(r) == match a {
            Some(x) => seq![x@],
            None => seq![],
        },
{
    let mut out: Vec<Action> = Vec::new();
    match a {
        Some(x) => out.push(x),
        None => {},
    }
    proof {
        assert(actions_view(out) =~= match a {
            Some(x) => seq![x@],
            None => seq![],
        });
    }
    out
}

fn topic(irc: &mut Irc, msg: &Message, pos: usize, change: bool, cleared: bool) -> (r: Vec<Action>)
    requires
        old(irc).wf(),
    ensures
        final(irc).wf(),
        (final(irc)@, actions_view(r)) == ({
            let (chs, actions) = topic_step(
                old(irc)@.channels,
                args_of(msg),
                pos as int,
                change,
                cleared,
            );
            (IrcView { channels: chs, ..old(irc)@ }, actions)
        }),
{
    let n = msg.args.len();
    if n <= pos {
        return one(None);
    }
    let name = msg.args[pos].as_str();
    let topic = if cleared {
        ""
    } else {
        msg.args[n - 1].as_str()
    };
    proof {
        assert(args_of(msg)[pos as int] == name@);
        assert(args_of(msg).last() == msg.args@[n - 1]@);
        reveal_strlit("");
        assert(cleared ==> topic@ =~= Seq::<char>::empty());
    }
    irc.ensure_channel_exists(name);
    let id = to_lower(name);
    irc.channel_set_topic(id.as_str(), topic);
    match snapshot(irc, id.as_str()) {
        Some(c) => {
            let t = c.topic_string();
            if change {
                one(Some(Action::TopicChange(c, t)))
            } else {
                one(Some(Action::Topic(c, t)))
            }
        },
        None => one(None),
    }
}

fn join(irc: &mut Irc, msg: &Message) -> (r: Vec<Action>)
    requires
        old(irc).wf(),
    ensures
        final(irc).wf(),
        (final(irc)@, actions_view(r)) == ({
            let (chs, actions) = join_step(old(irc)@.channels, sender_of(msg), args_of(msg));
            (IrcView { channels: chs, ..old(irc)@ }, actions)
        }),
{
    let u = match sender(msg) {
        Some(u) => u,
        None => return one(None),
    };
    if msg.args.len() < 1 {
        return one(None);
    }
    proof {
        assert(args_of(msg)[0] == msg.args@[0]@);
    }
    let id = to_lower(msg.args[0].as_str());
    irc.channel_add_user(id.as_str(), u.nickname.as_str());
    match snapshot(irc, id.as_str()) {
        Some(c) => match member_snapshot(&c, u.nickname.as_str()) {
            Some(m) => one(Some(Action::UserJoin(c, m))),
            None => one(None),
        },
        None => one(None),
    }
}

fn leave(irc: &mut Irc, id: &str, nickname: &str, kicked: bool) -> (r: Vec<Action>)
    requires
        old(irc).wf(),
    ensures
        final(irc).wf(),
        (final(irc)@, actions_view(r)) == ({
            let (chs, actions) = leave_step(old(irc)@.channels, id@, nickname@, kicked);
            (IrcView { channels: chs, ..old(irc)@ }, actions)
        }),
{
    let removed = irc.channel_del_user(id, nickname);
    match removed {
        Some(m) => match snapshot(irc, id) {
            Some(c) => if kicked {
                one(Some(Action::Kick(c, m)))
            } else {
                one(Some(Action::UserPart(c, m)))
            },
            None => one(None),
        },
        None => one(None),
    }
}

fn part(irc: &mut Irc, msg: &Message) -> (r: Vec<Action>)
    requires
        old(irc).wf(),
    ensures
        final(irc).wf(),
        (final(irc)@, actions_view(r)) == ({
            let (chs, actions) = part_step(old(irc)@.channels, sender_of(msg), args_of(msg));
            (IrcView { channels: chs, ..old(irc)@ }, actions)
        }),
{
    let u = match sender(msg) {
        Some(u) => u,
        None => return one(None),
    };
    if msg.args.len() < 1 {
        return one(None);
    }
    proof {
        assert(args_of(msg)[0] == msg.args@[0]@);
    }
    let id = to_lower(msg.args[0].as_str());
    leave(irc, id.as_str(), u.nickname.as_str(), false)
}

fn kick(irc: &mut Irc, msg: &Message) -> (r: Vec<Action>)
    requires
        old(irc).wf(),
    ensures
        final(irc).wf(),
        (final(irc)@, actions_view(r)) == ({
            let (chs, actions) = kick_step(old(irc)@.channels, args_of(msg));
            (IrcView { channels: chs, ..old(irc)@ }, actions)
        }),
{
    if msg.args.len() < 2 {
        return one(None);
    }
    proof {
        assert(args_of(msg)[0] == msg.args@[0]@);
        assert(args_of(msg)[1] == msg.args@[1]@);
    }
    let id = to_lower(msg.args[0].as_str());
    leave(irc, id.as_str(), msg.args[1].as_str(), true)
}

fn message(irc: &Irc, msg: &Message, notice: bool) -> (r: Vec<Action>)
    requires
        irc.wf(),
    ensures
        actions_view(r) == message_actions(irc@.channels, sender_of(msg), args_of(msg), notice),
{
    let u = match sender(msg) {
        Some(u) => u,
        None => return one(None),
    };
    let n = msg.args.len();
    if n < 1 {
        return one(None);
    }
    let target = msg.args[0].as_str();
    let text = msg.args[n - 1].clone();
    proof {
        assert(args_of(msg)[0] == target@);
        assert(args_of(msg).last() == msg.args@[n - 1]@);
    }
    let to_channel = target.unicode_len() > 0 && target.get_char(0) == '#';
    if to_channel {
        let id = to_lower(target);
        match snapshot(irc, id.as_str()) {
            Some(c) => match member_snapshot(&c, u.nickname.as_str()) {
                Some(m) => if notice {
                    one(Some(Action::ChannelNotice(c, m, text)))
                } else {
                    one(Some(Action::ChannelMsg(c, m, text)))
                },
                None => one(None),
            },
            None => one(None),
        }
    } else if notice {
        one(Some(Action::PrivateNotice(u.duplicate(), text)))
    } else {
        one(Some(Action::PrivateMsg(u.duplicate(), text)))
    }
}

fn quit(irc: &mut Irc, msg: &Message) -> (r: Vec<Action>)
    requires
        old(irc).wf(),
    ensures
        final(irc).wf(),
        (final(irc)@, actions_view(r)) == ({
            let (chs, actions) = quit_step(old(irc)@.channels, sender_of(msg));
            (IrcView { channels: chs, ..old(irc)@ }, actions)
        }),
{
    let u = match sender(msg) {
        Some(u) => u,
        None => return one(None),
    };
    irc.remove_user_everywhere(u.nickname.as_str());
    one(Some(Action::UserQuit(u.nickname.clone())))
}

fn nick(irc: &mut Irc, msg: &Message) -> (r: Vec<Action>)
    requires
        old(irc).wf(),
    ensures
        final(irc).wf(),
        (final(irc)@, actions_view(r)) == ({
            let (chs, actions) = nick_step(old(irc)@.channels, sender_of(msg), args_of(msg));
            (IrcView { channels: chs, ..old(irc)@ }, actions)
        }),
{
    let u = match sender(msg) {
        Some(u) => u,
        None => return one(None),
    };
    let n = msg.args.len();
    if n < 1 {
        return one(None);
    }
    let new_nick = msg.args[n - 1].as_str();
    proof {
        assert(args_of(msg).last() == new_nick@);
    }
    irc.rename_user(u.nickname.as_str(), new_nick);
    one(Some(Action::NickChange(u.nickname.clone(), new_nick.to_owned())))
}

/// The framed line for `text` as a send action, unless `text` holds a line
/// break.
fn wire_line(text: String) -> (r: Vec<Action>)
    ensures
        actions_view(r) == wire(text@),
{
    match frame(text.as_str()) {
        Ok(line) => one(Some(Action::Send(line))),
        Err(_) => one(None),
    }
}

fn ping(auto_ping: bool, msg: &Message) -> (r: Vec<Action>)
    ensures
        actions_view(r) == ping_actions(auto_ping, args_of(msg)),
{
    let n = msg.args.len();
    if n < 1 {
        return one(None);
    }
    let server = msg.args[n - 1].as_str();
    proof {
        assert(args_of(msg).last() == server@);
    }
    let mut out = if auto_ping {
        wire_line(pong_command(server))
    } else {
        one(None)
    };
    out.push(Action::Ping(server.to_owned()));
    proof {
        assert(actions_view(out) =~= ping_actions(auto_ping, args_of(msg)));
    }
    out
}

fn pong(msg: &Message) -> (r: Vec<Action>)
    ensures
        actions_view(r) == pong_actions(args_of(msg)),
{
    let n = msg.args.len();
    if n < 1 {
        return one(None);
    }
    proof {
        assert(args_of(msg).last() == msg.args@[n - 1]@);
    }
    one(Some(Action::Pong(msg.args[n - 1].clone())))
}

fn mode(irc: &mut Irc, msg: &Message) -> (r: Vec<Action>)
    requires
        old(irc).wf(),
    ensures
        final(irc).wf(),
        (final(irc)@, actions_view(r)) == ({
            let (chs, actions) = mode_step(old(irc)@.channels, args_of(msg));
            (IrcView { channels: chs, ..old(irc)@ }, actions)
        }),
{
    if msg.args.len() < 3 {
        return one(None);
    }
    proof {
        assert(args_of(msg)[0] == msg.args@[0]@);
        assert(args_of(msg)[1] == msg.args@[1]@);
        assert(args_of(msg)[2] == msg.args@[2]@);
    }
    let id = to_lower(msg.args[0].as_str());
    let nickname = msg.args[2].as_str();
    match irc.channel_update_user_mode(id.as_str(), nickname, msg.args[1].as_str()) {
        Some((before, after)) => {
            if before == after {
                return one(None);
            }
            match snapshot(irc, id.as_str()) {
                Some(c) => match member_snapshot(&c, nickname) {
                    Some(m) => {
                        let status = m.status();
                        one(Some(Action::UserModeChange(c, m, before, status)))
                    },
                    None => one(None),
                },
                None => one(None),
            }
        },
        None => one(None),
    }
}

/// The lines that identify the client again after a reconnection.
fn ident_lines(settings: &Settings) -> (r: Vec<Action>)
    ensures
        actions_view(r) == ident_actions(settings@),
{
    if !settings.get_auto_ident() {
        return one(None);
    }
    let mut out = wire_line(user_command(settings.get_username(), settings.get_realname()));
    let mut nick_line = wire_line(nick_command(settings.get_nickname()));
    out.append(&mut nick_line);
    out
}

/// Turns transport events into changes of the channel store and into the
/// actions that the handler and the wire are to see, in order.
pub struct Dispatch {
    settings: Settings,
}

impl Dispatch {
    /// A dispatcher that behaves as `settings` say.
    pub fn new(settings: Settings) -> (r: Dispatch)
        ensures
            r.settings() == settings@,
    {
        Dispatch { settings }
    }

    /// The commands that open a session, in order: the server password if
    /// there is one, then the nickname, then the user. They are refused as a
    /// whole if one of them holds a line break.
    pub fn login_lines(&self) -> (r: Result<Vec<String>, Error>)
        ensures
            match r {
                Ok(lines) => (forall|k: int|
                    0 <= k < login_texts(self.settings()).len() ==> !has_line_break(
                        #[trigger] login_texts(self.settings())[k],
                    )) && lines@.map_values(|l: String| l@) == login_texts(self.settings()).map_values(
                    |t: Seq<char>| t.push('\n'),
                ),
                Err(e) => e is Multiline && exists|k: int|
                    0 <= k < login_texts(self.settings()).len() && has_line_break(
                        #[trigger] login_texts(self.settings())[k],
                    ),
            },
    {
        let ghost texts = login_texts(self.settings());
        let mut commands: Vec<String> = Vec::new();
        if !self.settings.get_password().is_empty() {
            commands.push(pass_command(self.settings.get_password()));
        }
        commands.push(nick_command(self.settings.get_nickname()));
        commands.push(user_command(self.settings.get_username(), self.settings.get_realname()));
        proof {
            assert(commands@.map_values(|c: String| c@) =~= texts);
        }
        let mut lines: Vec<String> = Vec::new();
        let mut i: usize = 0;
        while i < commands.len()
            invariant
                i <= commands@.len(),
                texts == login_texts(self.settings()),
                commands@.map_values(|c: String| c@) == texts,
                lines@.len() == i,
                forall|k: int| 0 <= k < i ==> !has_line_break(#[trigger] texts[k]),
                forall|k: int| 0 <= k < i ==> (#[trigger] lines@[k])@ == texts[k].push('\n'),
            decreases commands@.len() - i,
        {
            proof {
                assert(texts[i as int] == commands@[i as int]@);
            }
            match frame(commands[i].as_str()) {
                Ok(line) => lines.push(line),
                Err(e) => {
                    proof {
                        assert(has_line_break(login_texts(self.settings())[i as int]));
                    }
                    return Err(e);
                },
            }
            i = i + 1;
        }
        proof {
            assert(lines@.map_values(|l: String| l@) =~= texts.map_values(|t: Seq<char>| t.push('\n')));
        }
        Ok(lines)
    }

    /// The settings as values.
    pub closed spec fn settings(&self) -> SettingsView {
        self.settings@
    }

    /// Applies one event to the store and gives the actions it calls for.
    ///
    /// Lifecycle events set the connection status; a drop also forgets every
    /// channel, and a reconnection sends the identity lines again when
    /// automatic identification is on. A message is announced as such (and
    /// as an error reply when it is one) before the routine for its code
    /// runs; a routine that misses an argument, a user prefix, a channel or a
    /// member does nothing.
    pub fn feed(&self, irc: &mut Irc, event: &Event) -> (r: Vec<Action>)
        requires
            old(irc).wf(),
        ensures
            final(irc).wf(),
            (final(irc)@, actions_view(r)) == step(self.settings(), old(irc)@, *event),
    {
        let mut out: Vec<Action> = Vec::new();
        out.push(Action::Any);
        match event {
            Event::Closed(reason) => {
                irc.set_status(ConnectionStatus::Closed(*reason));
                out.push(Action::Close(*reason));
            },
            Event::Disconnected => {
                irc.set_status(ConnectionStatus::Disconnected);
                irc.clear_channels();
                out.push(Action::Disconnect);
            },
            Event::Reconnecting => {
                irc.set_status(ConnectionStatus::Reconnecting);
                out.push(Action::Reconnecting);
            },
            Event::Reconnected => {
                irc.set_status(ConnectionStatus::Connected);
                let mut lines = ident_lines(&self.settings);
                out.append(&mut lines);
                out.push(Action::Reconnect);
            },
            Event::Message(msg) => {
                out.push(Action::Msg);
                if msg.code == MessageCode::Error {
                    out.push(Action::ErrorMsg);
                }
                let mut more = self.message(irc, msg);
                out.append(&mut more);
            },
            Event::Other => {},
        }
        proof {
            assert(actions_view(out) =~= step(self.settings(), old(irc)@, *event).1);
        }
        out
    }

    fn message(&self, irc: &mut Irc, msg: &Message) -> (r: Vec<Action>)
        requires
            old(irc).wf(),
        ensures
            final(irc).wf(),
            (final(irc)@, actions_view(r)) == ({
                let (chs, actions) = message_step(self.settings(), old(irc)@.channels, *msg);
                (IrcView { channels: chs, ..old(irc)@ }, actions)
            }),
    {
        match msg.code {
            MessageCode::Welcome => one(Some(Action::Welcome)),
            MessageCode::NamReply => {
                name_reply(irc, msg);
                one(None)
            },
            MessageCode::EndOfNames => end_name_reply(irc, msg),
            MessageCode::Topic => topic(irc, msg, 0, true, false),
            MessageCode::RplTopic => topic(irc, msg, 1, false, false),
            MessageCode::RplNoTopic => topic(irc, msg, 0, false, true),
            MessageCode::Join => join(irc, msg),
            MessageCode::Part => part(irc, msg),
            MessageCode::Privmsg => message(irc, msg, false),
            MessageCode::Notice => message(irc, msg, true),
            MessageCode::Quit => quit(irc, msg),
            MessageCode::Nick => nick(irc, msg),
            MessageCode::Kick => kick(irc, msg),
            MessageCode::Ping => ping(self.settings.get_auto_ping(), msg),
            MessageCode::Pong => pong(msg),
            MessageCode::Mode => mode(irc, msg),
            MessageCode::Error | MessageCode::Other => one(None),
        }
    }
}

} // verus!
