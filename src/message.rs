//! Inbound events and messages as the dispatcher reads them.

use vstd::prelude::*;

verus! {

/// What a message from the server is, as far as dispatch tells them apart.
#[derive(Clone, Copy, Debug, PartialEq, Eq, Structural)]
pub enum MessageCode {
    /// RPL_WELCOME
    Welcome,
    /// RPL_NAMREPLY: part of a channel's member list.
    NamReply,
    /// RPL_ENDOFNAMES: the member list is complete.
    EndOfNames,
    /// TOPIC: someone changed a topic.
    Topic,
    /// RPL_TOPIC: the topic of a channel, on request or on joining.
    RplTopic,
    /// RPL_NOTOPIC: a channel has no topic.
    RplNoTopic,
    /// JOIN
    Join,
    /// PART
    Part,
    /// PRIVMSG
    Privmsg,
    /// NOTICE
    Notice,
    /// QUIT
    Quit,
    /// NICK
    Nick,
    /// KICK
    Kick,
    /// PING
    Ping,
    /// PONG
    Pong,
    /// MODE
    Mode,
    /// Any error reply.
    Error,
    /// Anything else.
    Other,
}

/// The user a message came from.
#[derive(Clone, Debug)]
pub struct PrefixUser {
    /// Nickname.
    pub nickname: String,
    /// Username.
    pub username: String,
    /// Host name.
    pub hostname: String,
}

/// A user prefix as a value.
pub struct PrefixUserView {
    pub nickname: Seq<char>,
    pub username: Seq<char>,
    pub hostname: Seq<char>,
}

impl View for PrefixUser {
    type V = PrefixUserView;

    open spec fn view(&self) -> PrefixUserView {
        PrefixUserView {
            nickname: self.nickname@,
            username: self.username@,
            hostname: self.hostname@,
        }
    }
}

impl PrefixUser {
    /// An equal copy.
    pub fn duplicate(&self) -> (r: PrefixUser)
        ensures
            r@ == self@,
    {
        PrefixUser {
            nickname: self.nickname.clone(),
            username: self.username.clone(),
            hostname: self.hostname.clone(),
        }
    }
}

/// Where a message came from.
#[derive(Clone, Debug)]
pub enum Prefix {
    /// A user.
    User(PrefixUser),
    /// A server, by name.
    Server(String),
}

/// A message from the server, already parsed.
#[derive(Clone, Debug)]
pub struct Message {
    /// Where the message came from, if it says.
    pub prefix: Option<Prefix>,
    /// What the message is.
    pub code: MessageCode,
    /// The arguments; a trailing argument is the last of them.
    pub args: Vec<String>,
}

/// The arguments of a message as values.
pub open spec fn args_of(msg: &Message) -> Seq<Seq<char>> {
    msg.args@.map_values(|a: String| a@)
}

/// The user a message came from, if its prefix names one.
pub open spec fn sender_of(msg: &Message) -> Option<PrefixUserView> {
    match msg.prefix {
        Some(Prefix::User(u)) => Some(u@),
        _ => None,
    }
}

/// What the transport reports, one event at a time.
#[derive(Clone, Debug)]
pub enum Event {
    /// The connection was closed, for the given reason.
    Closed(&'static str),
    /// The connection dropped.
    Disconnected,
    /// An attempt to reconnect is under way.
    Reconnecting,
    /// The connection is back.
    Reconnected,
    /// A message from the server.
    Message(Message),
    /// Anything else the transport reports, such as a line it could not
    /// parse.
    Other,
}

} // verus!
