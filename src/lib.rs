//! Event-dispatch core of an IRC client: a model of the channels and their
//! members kept in step with the server's messages, the rules that map each
//! inbound event to the handler callbacks it fires, and the framing of
//! outbound commands.

pub mod channel;
pub mod command;
pub mod dispatch;
pub mod laws;
pub mod message;
pub mod settings;
pub mod state;
pub mod text;
pub mod user;

pub use channel::{Channel, ChannelView};
pub use command::{frame, Error, IrcWrite, NickServ};
pub use dispatch::{Action, ActionView, Dispatch};
pub use message::{Event, Message, MessageCode, Prefix, PrefixUser, PrefixUserView};
pub use settings::{Settings, SettingsView};
pub use state::{ConnectionStatus, Irc, IrcView};
pub use text::lower_of;
pub use user::{translate_mode, ChannelUser, ChannelUserStatus, UserView};
