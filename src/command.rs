//! Outbound commands: their text, the framing that refuses line breaks, and
//! the `IrcWrite` sink that sends them.

use vstd::prelude::*;
use vstd::string::*;

use crate::text::chars_of;

verus! {

/// std's I/O error, carried unopened inside `Error::IoError`.
#[verifier::external_type_specification]
#[verifier::external_body]
pub struct ExIoError(std::io::Error);

/// Errors that can occur.
#[derive(Debug)]
pub enum Error {
    /// The connection is already closed.
    AlreadyClosed,
    /// The connection is already disconnected.
    AlreadyDisconnected,
    /// The connection was closed by hand.
    Closed,
    /// The connection dropped; a reconnection may be under way.
    Disconnected,
    /// An I/O error.
    IoError(std::io::Error),
    /// The message holds a line break.
    Multiline,
}

impl From<std::io::Error> for Error {
    fn from(err: std::io::Error) -> (r: Error) {
        Error::IoError(err)
    }
}

impl vstd::std_specs::convert::FromSpecImpl<std::io::Error> for Error {
    open spec fn obeys_from_spec() -> bool {
        true
    }

    open spec fn from_spec(err: std::io::Error) -> Error {
        Error::IoError(err)
    }
}

impl Error {
    /// A short description of the error.
    pub fn description(&self) -> (r: &'static str)
        ensures
            r@ == match self {
                Error::AlreadyClosed => "Connection is already closed"@,
                Error::AlreadyDisconnected => "Connection is already disconnected"@,
                Error::Closed => "Connection has been manually closed"@,
                Error::Disconnected => "Connection has been dropped"@,
                Error::IoError(_) => "Connection encountered an I/O error"@,
                Error::Multiline => "Message contains a line break"@,
            },
    {
        match self {
            Error::AlreadyClosed => "Connection is already closed",
            Error::AlreadyDisconnected => "Connection is already disconnected",
            Error::Closed => "Connection has been manually closed",
            Error::Disconnected => "Connection has been dropped",
            Error::IoError(_) => "Connection encountered an I/O error",
            Error::Multiline => "Message contains a line break",
        }
    }

    /// The I/O error underneath, if there is one.
    pub fn io_error(&self) -> (r: Option<&std::io::Error>)
        ensures
            match self {
                Error::IoError(e) => r == Some(e),
                _ => r is None,
            },
    {
        match self {
            Error::IoError(e) => Some(e),
            _ => None,
        }
    }
}

/// Whether `s` holds a line feed or a carriage return.
pub open spec fn has_line_break(s: Seq<char>) -> bool {
    exists|i: int| 0 <= i < s.len() && (#[trigger] s[i] == '\n' || s[i] == '\r')
}

/// Whether `line` is one protocol line as it goes on the wire: a payload
/// without line breaks, then a line feed.
pub open spec fn is_wire_line(line: Seq<char>) -> bool {
    line.len() > 0 && line.last() == '\n' && !has_line_break(line.drop_last())
}

/// Whether `s` holds a line feed or a carriage return.
pub fn contains_line_break(s: &str) -> (r: bool)
    ensures
        r == has_line_break(s@),
{
    let cs = chars_of(s);
    let mut i: usize = 0;
    while i < cs.len()
        invariant
            i <= cs@.len(),
            cs@ == s@,
            forall|k: int| 0 <= k < i ==> !(#[trigger] s@[k] == '\n' || s@[k] == '\r'),
        decreases cs@.len() - i,
    {
        if cs[i] == '\n' || cs[i] == '\r' {
            return true;
        }
        i = i + 1;
    }
    false
}

/// Turns a command into the line that goes on the wire by appending a line
/// feed. A command holding a line break is refused: it would smuggle a second
/// command onto the wire.
pub fn frame(raw: &str) -> (r: Result<String, Error>)
    ensures
        match r {
            Ok(line) => !has_line_break(raw@) && line@ == raw@.push('\n'),
            Err(e) => has_line_break(raw@) && e is Multiline,
        },
{
    if contains_line_break(raw) {
        return Err(Error::Multiline);
    }
    let mut line = raw.to_owned();
    line.append("\n");
    proof {
        reveal_strlit("\n");
        assert(line@ =~= raw@.push('\n'));
    }
    Ok(line)
}

/// `NICK <nickname>`
pub open spec fn nick_text(nickname: Seq<char>) -> Seq<char> {
    "NICK "@ + nickname
}

/// `USER <username> 8 * :<realname>`
pub open spec fn user_text(username: Seq<char>, realname: Seq<char>) -> Seq<char> {
    "USER "@ + username + " 8 * :"@ + realname
}

/// `PING <server>`
pub open spec fn ping_text(server: Seq<char>) -> Seq<char> {
    "PING "@ + server
}

/// `PONG <server>`
pub open spec fn pong_text(server: Seq<char>) -> Seq<char> {
    "PONG "@ + server
}

/// `PASS <password>`
pub open spec fn pass_text(password: Seq<char>) -> Seq<char> {
    "PASS "@ + password
}

/// `PRIVMSG <target> :<text>`
pub open spec fn privmsg_text(target: Seq<char>, text: Seq<char>) -> Seq<char> {
    "PRIVMSG "@ + target + " :"@ + text
}

/// `NOTICE <target> :<text>`
pub open spec fn notice_text(target: Seq<char>, text: Seq<char>) -> Seq<char> {
    "NOTICE "@ + target + " :"@ + text
}

/// `JOIN <channel>`, then ` <password>` if there is one.
pub open spec fn join_text(channel: Seq<char>, password: Option<Seq<char>>) -> Seq<char> {
    match password {
        None => "JOIN "@ + channel,
        Some(p) => "JOIN "@ + channel + " "@ + p,
    }
}

/// `PART <channel>`, then ` :<message>` if there is one.
pub open spec fn part_text(channel: Seq<char>, message: Option<Seq<char>>) -> Seq<char> {
    match message {
        None => "PART "@ + channel,
        Some(m) => "PART "@ + channel + " :"@ + m,
    }
}

/// `QUIT :<message>`, with `No message` when there is none.
pub open spec fn quit_text(message: Option<Seq<char>>) -> Seq<char> {
    match message {
        None => "QUIT :No message"@,
        Some(m) => "QUIT :"@ + m,
    }
}

/// `TOPIC <channel>`
pub open spec fn get_topic_text(channel: Seq<char>) -> Seq<char> {
    "TOPIC "@ + channel
}

/// `TOPIC <channel> :<topic>`
pub open spec fn set_topic_text(channel: Seq<char>, topic: Seq<char>) -> Seq<char> {
    "TOPIC "@ + channel + " :"@ + topic
}

/// `KICK <channel> <nickname>`
pub open spec fn kick_text(channel: Seq<char>, nickname: Seq<char>) -> Seq<char> {
    "KICK "@ + channel + " "@ + nickname
}

/// `identify <password>`, the text sent to the nick server.
pub open spec fn identify_text(password: Seq<char>) -> Seq<char> {
    "identify "@ + password
}

fn join2(a: &str, b: &str) -> (r: String)
    ensures
        r@ == a@ + b@,
{
    let mut s = a.to_owned();
    s.append(b);
    s
}

fn join4(a: &str, b: &str, c: &str, d: &str) -> (r: String)
    ensures
        r@ == a@ + b@ + c@ + d@,
{
    let mut s = a.to_owned();
    s.append(b);
    s.append(c);
    s.append(d);
    s
}

/// The NICK command.
pub fn nick_command(nickname: &str) -> (r: String)
    ensures
        r@ == nick_text(nickname@),
{
    join2("NICK ", nickname)
}

/// The USER command.
pub fn user_command(username: &str, realname: &str) -> (r: String)
    ensures
        r@ == user_text(username@, realname@),
{
    join4("USER ", username, " 8 * :", realname)
}

/// The PING command.
pub fn ping_command(server: &str) -> (r: String)
    ensures
        r@ == ping_text(server@),
{
    join2("PING ", server)
}

/// The PONG command.
pub fn pong_command(server: &str) -> (r: String)
    ensures
        r@ == pong_text(server@),
{
    join2("PONG ", server)
}

/// The PASS command.
pub fn pass_command(password: &str) -> (r: String)
    ensures
        r@ == pass_text(password@),
{
    join2("PASS ", password)
}

/// The PRIVMSG command.
pub fn privmsg_command(target: &str, text: &str) -> (r: String)
    ensures
        r@ == privmsg_text(target@, text@),
{
    join4("PRIVMSG ", target, " :", text)
}

/// The NOTICE command.
pub fn notice_command(target: &str, text: &str) -> (r: String)
    ensures
        r@ == notice_text(target@, text@),
{
    join4("NOTICE ", target, " :", text)
}

/// The JOIN command.
pub fn join_command(channel: &str, password: Option<&str>) -> (r: String)
    ensures
        r@ == join_text(
            channel@,
            match password {
                Some(p) => Some(p@),
                None => None,
            },
        ),
{
    match password {
        None => join2("JOIN ", channel),
        Some(p) => join4("JOIN ", channel, " ", p),
    }
}

/// The PART command.
pub fn part_command(channel: &str, message: Option<&str>) -> (r: String)
    ensures
        r@ == part_text(
            channel@,
            match message {
                Some(m) => Some(m@),
                None => None,
            },
        ),
{
    match message {
        None => join2("PART ", channel),
        Some(m) => join4("PART ", channel, " :", m),
    }
}

/// The QUIT command.
pub fn quit_command(message: Option<&str>) -> (r: String)
    ensures
        r@ == quit_text(
            match message {
                Some(m) => Some(m@),
                None => None,
            },
        ),
{
    match message {
        None => "QUIT :No message".to_owned(),
        Some(m) => join2("QUIT :", m),
    }
}

/// The TOPIC command that asks for a channel's topic.
pub fn get_topic_command(channel: &str) -> (r: String)
    ensures
        r@ == get_topic_text(channel@),
{
    join2("TOPIC ", channel)
}

/// The TOPIC command that sets a channel's topic.
pub fn set_topic_command(channel: &str, topic: &str) -> (r: String)
    ensures
        r@ == set_topic_text(channel@, topic@),
{
    join4("TOPIC ", channel, " :", topic)
}

/// The KICK command.
pub fn kick_command(channel: &str, nickname: &str) -> (r: String)
    ensures
        r@ == kick_text(channel@, nickname@),
{
    join4("KICK ", channel, " ", nickname)
}

/// The text that asks the nick server to identify with a password.
pub fn identify_message(password: &str) -> (r: String)
    ensures
        r@ == identify_text(password@),
{
    join2("identify ", password)
}

/// The ability to send commands to the server.
///
/// An implementor supplies `send_line`, which puts one framed line on the
/// wire; every command goes through `raw`, which refuses a command holding a
/// line break before anything is sent.
pub trait IrcWrite {
    /// Puts one line, as `frame` made it, on the wire.
    fn send_line(&self, line: String) -> Result<(), Error>
        requires
            is_wire_line(line@),
    ;

    /// Sends a raw command; the line feed is added here. A command holding a
    /// line break is refused with `Error::Multiline` and nothing is sent.
    fn raw(&self, raw: &str) -> (r: Result<(), Error>)
        ensures
            has_line_break(raw@) ==> r matches Err(Error::Multiline),
    {
        match frame(raw) {
            Ok(line) => {
                proof {
                    assert(line@.drop_last() =~= raw@);
                }
                self.send_line(line)
            },
            Err(e) => Err(e),
        }
    }

    /// The NICK command.
    fn nick(&self, nickname: &str) -> (r: Result<(), Error>)
        ensures
            has_line_break(nick_text(nickname@)) ==> r matches Err(Error::Multiline),
    {
        self.raw(nick_command(nickname).as_str())
    }

    /// The USER command.
    fn user(&self, username: &str, realname: &str) -> (r: Result<(), Error>)
        ensures
            has_line_break(user_text(username@, realname@)) ==> r matches Err(Error::Multiline),
    {
        self.raw(user_command(username, realname).as_str())
    }

    /// The PING command.
    fn ping(&self, server: &str) -> (r: Result<(), Error>)
        ensures
            has_line_break(ping_text(server@)) ==> r matches Err(Error::Multiline),
    {
        self.raw(ping_command(server).as_str())
    }

    /// The PONG command.
    fn pong(&self, server: &str) -> (r: Result<(), Error>)
        ensures
            has_line_break(pong_text(server@)) ==> r matches Err(Error::Multiline),
    {
        self.raw(pong_command(server).as_str())
    }

    /// The PASS command.
    fn pass(&self, password: &str) -> (r: Result<(), Error>)
        ensures
            has_line_break(pass_text(password@)) ==> r matches Err(Error::Multiline),
    {
        self.raw(pass_command(password).as_str())
    }

    /// The PRIVMSG command.
    fn privmsg(&self, target: &str, text: &str) -> (r: Result<(), Error>)
        ensures
            has_line_break(privmsg_text(target@, text@)) ==> r matches Err(Error::Multiline),
    {
        self.raw(privmsg_command(target, text).as_str())
    }

    /// The NOTICE command.
    fn notice(&self, target: &str, text: &str) -> (r: Result<(), Error>)
        ensures
            has_line_break(notice_text(target@, text@)) ==> r matches Err(Error::Multiline),
    {
        self.raw(notice_command(target, text).as_str())
    }

    /// The JOIN command, with the channel's password if there is one.
    fn join(&self, channel: &str, password: Option<&str>) -> (r: Result<(), Error>)
        ensures
            has_line_break(
                join_text(
                    channel@,
                    match password {
                        Some(p) => Some(p@),
                        None => None,
                    },
                ),
            ) ==> r matches Err(Error::Multiline),
    {
        self.raw(join_command(channel, password).as_str())
    }

    /// The PART command, with a parting message if there is one.
    fn part(&self, channel: &str, message: Option<&str>) -> (r: Result<(), Error>)
        ensures
            has_line_break(
                part_text(
                    channel@,
                    match message {
                        Some(m) => Some(m@),
                        None => None,
                    },
                ),
            ) ==> r matches Err(Error::Multiline),
    {
        self.raw(part_command(channel, message).as_str())
    }

    /// The QUIT command, with a message if there is one.
    fn quit(&self, message: Option<&str>) -> (r: Result<(), Error>)
        ensures
            has_line_break(
                quit_text(
                    match message {
                        Some(m) => Some(m@),
                        None => None,
                    },
                ),
            ) ==> r matches Err(Error::Multiline),
    {
        self.raw(quit_command(message).as_str())
    }

    /// Asks for the topic of a channel; the reply comes as a topic event.
    fn get_topic(&self, channel: &str) -> (r: Result<(), Error>)
        ensures
            has_line_break(get_topic_text(channel@)) ==> r matches Err(Error::Multiline),
    {
        self.raw(get_topic_command(channel).as_str())
    }

    /// Sets the topic of a channel; an empty topic removes it.
    fn set_topic(&self, channel: &str, topic: &str) -> (r: Result<(), Error>)
        ensures
            has_line_break(set_topic_text(channel@, topic@)) ==> r matches Err(Error::Multiline),
    {
        self.raw(set_topic_command(channel, topic).as_str())
    }

    /// The KICK command.
    fn kick(&self, channel: &str, nickname: &str) -> (r: Result<(), Error>)
        ensures
            has_line_break(kick_text(channel@, nickname@)) ==> r matches Err(Error::Multiline),
    {
        self.raw(kick_command(channel, nickname).as_str())
    }
}

/// Nick-server commands, which are not part of the protocol standard.
pub trait NickServ: IrcWrite {
    /// Identifies to the nick server, as `/msg nickserv identify <password>`.
    fn identify(&self, password: &str) -> (r: Result<(), Error>)
        ensures
            has_line_break(privmsg_text("nickserv"@, identify_text(password@))) ==> r matches Err(
                Error::Multiline,
            ),
    {
        self.privmsg("nickserv", identify_message(password).as_str())
    }
}

} // verus!
