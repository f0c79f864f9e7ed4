//! Who the client is on the server and how it behaves there.

use vstd::prelude::*;

verus! {

/// Settings as values.
pub struct SettingsView {
    pub addr: Seq<char>,
    pub nickname: Seq<char>,
    pub username: Seq<char>,
    pub realname: Seq<char>,
    pub password: Seq<char>,
    pub auto_ident: bool,
    pub auto_ping: bool,
}

/// Who to be on the server, and how to behave there.
#[derive(Clone, Debug)]
pub struct Settings {
    addr: String,
    nickname: String,
    username: String,
    realname: String,
    password: String,
    auto_ident: bool,
    auto_ping: bool,
}

impl View for Settings {
    type V = SettingsView;

    closed spec fn view(&self) -> SettingsView {
        SettingsView {
            addr: self.addr@,
            nickname: self.nickname@,
            username: self.username@,
            realname: self.realname@,
            password: self.password@,
            auto_ident: self.auto_ident,
            auto_ping: self.auto_ping,
        }
    }
}

impl Settings {
    /// Settings for the server at `addr` under the nickname `nickname`.
    ///
    /// The username and the real name are `hiirc`, there is no server
    /// password, and both automatic identification after a reconnection and
    /// automatic replies to pings are on.
    pub fn new(addr: &str, nickname: &str) -> (r: Settings)
        ensures
            r@ == (SettingsView {
                addr: addr@,
                nickname: nickname@,
                username: "hiirc"@,
                realname: "hiirc"@,
                password: ""@,
                auto_ident: true,
                auto_ping: true,
            }),
    {
        Settings {
            addr: addr.to_owned(),
            nickname: nickname.to_owned(),
            username: "hiirc".to_owned(),
            realname: "hiirc".to_owned(),
            password: "".to_owned(),
            auto_ident: true,
            auto_ping: true,
        }
    }

    /// Changes the username.
    pub fn username(self, username: &str) -> (r: Settings)
        ensures
            r@ == (SettingsView { username: username@, ..self@ }),
    {
        Settings { username: username.to_owned(), ..self }
    }

    /// Changes the real name.
    pub fn realname(self, realname: &str) -> (r: Settings)
        ensures
            r@ == (SettingsView { realname: realname@, ..self@ }),
    {
        Settings { realname: realname.to_owned(), ..self }
    }

    /// Turns automatic identification after a reconnection on or off.
    pub fn auto_ident(self, auto_ident: bool) -> (r: Settings)
        ensures
            r@ == (SettingsView { auto_ident, ..self@ }),
    {
        Settings { auto_ident, ..self }
    }

    /// Turns automatic replies to pings on or off.
    pub fn auto_ping(self, auto_ping: bool) -> (r: Settings)
        ensures
            r@ == (SettingsView { auto_ping, ..self@ }),
    {
        Settings { auto_ping, ..self }
    }

    /// Changes the server password; an empty one means none.
    pub fn password(self, password: &str) -> (r: Settings)
        ensures
            r@ == (SettingsView { password: password@, ..self@ }),
    {
        Settings { password: password.to_owned(), ..self }
    }

    /// The address of the server.
    pub fn addr(&self) -> (r: &str)
        ensures
            r@ == self@.addr,
    {
        self.addr.as_str()
    }

    /// The nickname.
    pub fn get_nickname(&self) -> (r: &str)
        ensures
            r@ == self@.nickname,
    {
        self.nickname.as_str()
    }

    /// The username.
    pub fn get_username(&self) -> (r: &str)
        ensures
            r@ == self@.username,
    {
        self.username.as_str()
    }

    /// The real name.
    pub fn get_realname(&self) -> (r: &str)
        ensures
            r@ == self@.realname,
    {
        self.realname.as_str()
    }

    /// The server password; empty when there is none.
    pub fn get_password(&self) -> (r: &str)
        ensures
            r@ == self@.password,
    {
        self.password.as_str()
    }

    /// Whether the client identifies again after a reconnection.
    pub fn get_auto_ident(&self) -> (r: bool)
        ensures
            r == self@.auto_ident,
    {
        self.auto_ident
    }

    /// Whether the client answers pings by itself.
    pub fn get_auto_ping(&self) -> (r: bool)
        ensures
            r == self@.auto_ping,
    {
        self.auto_ping
    }
}

} // verus!
