//! Members of a channel, their statuses, name-list sigils and mode deltas.

use vstd::prelude::*;
use vstd::string::*;

use crate::text::chars_of;

verus! {

/// Status of a user inside a channel.
#[derive(Clone, Copy, Debug, PartialEq, Eq, Structural)]
pub enum ChannelUserStatus {
    /// No special status.
    Normal,
    /// Voice status.
    Voice,
    /// Half-operator status.
    HalfOperator,
    /// Operator status.
    Operator,
    /// Owner status.
    Owner,
}

/// The status that a leading sigil of a name-list token stands for, if it is
/// one.
pub open spec fn sigil_status(c: char) -> Option<ChannelUserStatus> {
    if c == '~' || c == '&' {
        Some(ChannelUserStatus::Owner)
    } else if c == '@' {
        Some(ChannelUserStatus::Operator)
    } else if c == '%' {
        Some(ChannelUserStatus::HalfOperator)
    } else if c == '+' {
        Some(ChannelUserStatus::Voice)
    } else {
        None
    }
}

/// A member as a value: its nickname and its status.
pub struct UserView {
    pub nickname: Seq<char>,
    pub status: ChannelUserStatus,
}

/// The member that a raw name-list token describes: one leading sigil is
/// stripped and gives the status; without one the status is normal.
pub open spec fn decode_member(raw: Seq<char>) -> UserView {
    if raw.len() > 0 && sigil_status(raw[0]) is Some {
        UserView { nickname: raw.drop_first(), status: sigil_status(raw[0])->0 }
    } else {
        UserView { nickname: raw, status: ChannelUserStatus::Normal }
    }
}

/// The status that a mode delta gives a member who holds `status`.
///
/// Only `+v -v +h -h +o -o` are understood, and owner status is never granted
/// by a mode delta; every other pair leaves the status as it is.
pub open spec fn next_status(status: ChannelUserStatus, mode: Seq<char>) -> ChannelUserStatus {
    if mode.len() != 2 || (mode[0] != '+' && mode[0] != '-') {
        status
    } else {
        let add = mode[0] == '+';
        let letter = mode[1];
        match status {
            ChannelUserStatus::Normal => {
                if add && letter == 'v' {
                    ChannelUserStatus::Voice
                } else if add && letter == 'h' {
                    ChannelUserStatus::HalfOperator
                } else if add && letter == 'o' {
                    ChannelUserStatus::Operator
                } else {
                    status
                }
            },
            ChannelUserStatus::Voice => {
                if !add && letter == 'v' {
                    ChannelUserStatus::Normal
                } else if add && letter == 'h' {
                    ChannelUserStatus::HalfOperator
                } else if add && letter == 'o' {
                    ChannelUserStatus::Operator
                } else {
                    status
                }
            },
            ChannelUserStatus::HalfOperator => {
                if !add && letter == 'h' {
                    ChannelUserStatus::Normal
                } else if add && letter == 'o' {
                    ChannelUserStatus::Operator
                } else {
                    status
                }
            },
            ChannelUserStatus::Operator | ChannelUserStatus::Owner => {
                if !add && letter == 'o' {
                    ChannelUserStatus::Normal
                } else {
                    status
                }
            },
        }
    }
}

/// The status that a leading sigil stands for, if `c` is one.
pub fn status_of_sigil(c: char) -> (r: Option<ChannelUserStatus>)
    ensures
        r == sigil_status(c),
{
    if c == '~' || c == '&' {
        Some(ChannelUserStatus::Owner)
    } else if c == '@' {
        Some(ChannelUserStatus::Operator)
    } else if c == '%' {
        Some(ChannelUserStatus::HalfOperator)
    } else if c == '+' {
        Some(ChannelUserStatus::Voice)
    } else {
        None
    }
}

/// Applies a mode delta such as `+o` to a status.
pub fn translate_mode(status: ChannelUserStatus, mode: &str) -> (r: ChannelUserStatus)
    ensures
        r == next_status(status, mode@),
{
    let cs = chars_of(mode);
    if cs.len() != 2 || (cs[0] != '+' && cs[0] != '-') {
        return status;
    }
    let add = cs[0] == '+';
    let letter = cs[1];
    match status {
        ChannelUserStatus::Normal => {
            if add && letter == 'v' {
                ChannelUserStatus::Voice
            } else if add && letter == 'h' {
                ChannelUserStatus::HalfOperator
            } else if add && letter == 'o' {
                ChannelUserStatus::Operator
            } else {
                status
            }
        },
        ChannelUserStatus::Voice => {
            if !add && letter == 'v' {
                ChannelUserStatus::Normal
            } else if add && letter == 'h' {
                ChannelUserStatus::HalfOperator
            } else if add && letter == 'o' {
                ChannelUserStatus::Operator
            } else {
                status
            }
        },
        ChannelUserStatus::HalfOperator => {
            if !add && letter == 'h' {
                ChannelUserStatus::Normal
            } else if add && letter == 'o' {
                ChannelUserStatus::Operator
            } else {
                status
            }
        },
        ChannelUserStatus::Operator | ChannelUserStatus::Owner => {
            if !add && letter == 'o' {
                ChannelUserStatus::Normal
            } else {
                status
            }
        },
    }
}

/// A user inside a channel.
///
/// The same person may be in many channels; each channel holds its own
/// `ChannelUser` for them.
#[derive(Clone, Debug)]
pub struct ChannelUser {
    nickname: String,
    status: ChannelUserStatus,
}

impl View for ChannelUser {
    type V = UserView;

    closed spec fn view(&self) -> UserView {
        UserView { nickname: self.nickname@, status: self.status }
    }
}

impl ChannelUser {
    /// A user with the given nickname and status.
    pub fn new(nickname: &str, status: ChannelUserStatus) -> (r: ChannelUser)
        ensures
            r@ == (UserView { nickname: nickname@, status }),
    {
        ChannelUser { nickname: nickname.to_owned(), status }
    }

    /// Decodes a raw name-list token such as `@alice`: a leading `~` or `&`
    /// means owner, `@` operator, `%` half-operator, `+` voice; the sigil is
    /// not part of the nickname. Without a sigil the status is normal.
    pub fn from_raw(raw: &str) -> (r: ChannelUser)
        ensures
            r@ == decode_member(raw@),
    {
        let n = raw.unicode_len();
        if n > 0 {
            let first = raw.get_char(0);
            match status_of_sigil(first) {
                Some(status) => {
                    let rest = raw.substring_char(1, n);
                    proof {
                        assert(rest@ =~= raw@.drop_first());
                    }
                    return ChannelUser::new(rest, status);
                },
                None => {},
            }
        }
        ChannelUser::new(raw, ChannelUserStatus::Normal)
    }

    /// The nickname of the user.
    pub fn nickname(&self) -> (r: &str)
        ensures
            r@ == self@.nickname,
    {
        self.nickname.as_str()
    }

    /// The status of the user.
    pub fn status(&self) -> (r: ChannelUserStatus)
        ensures
            r == self@.status,
    {
        self.status
    }

    /// Renames the user in place.
    pub fn set_nickname(&mut self, nickname: &str)
        ensures
            final(self)@ == (UserView { nickname: nickname@, status: old(self)@.status }),
    {
        self.nickname = nickname.to_owned();
    }

    /// Changes the status of the user.
    pub fn set_status(&mut self, status: ChannelUserStatus)
        ensures
            final(self)@ == (UserView { nickname: old(self)@.nickname, status }),
    {
        self.status = status;
    }

    /// An equal copy of the user.
    pub fn duplicate(&self) -> (r: ChannelUser)
        ensures
            r@ == self@,
    {
        ChannelUser { nickname: self.nickname.clone(), status: self.status }
    }
}

} // verus!
