//! A channel: its name, its key, its topic and its members, with the rules
//! that keep member nicknames distinct.

use std::sync::Arc;
use vstd::prelude::*;

use crate::text::{lower_of, to_lower};
use crate::user::{decode_member, next_status, translate_mode, ChannelUser, ChannelUserStatus, UserView};

verus! {

/// Whether some member of `users` has the nickname `nick`.
pub open spec fn has_member(users: Seq<UserView>, nick: Seq<char>) -> bool {
    exists|i: int| 0 <= i < users.len() && (#[trigger] users[i]).nickname == nick
}

/// The position of the member called `nick`, when there is one.
pub open spec fn member_index(users: Seq<UserView>, nick: Seq<char>) -> int {
    choose|i: int| 0 <= i < users.len() && (#[trigger] users[i]).nickname == nick
}

/// The member called `nick`, if there is one.
pub open spec fn find_member(users: Seq<UserView>, nick: Seq<char>) -> Option<UserView> {
    if has_member(users, nick) {
        Some(users[member_index(users, nick)])
    } else {
        None
    }
}

/// No two members share a nickname.
pub open spec fn unique_nicknames(users: Seq<UserView>) -> bool {
    forall|i: int, j: int|
        0 <= i < users.len() && 0 <= j < users.len() && i != j ==> (#[trigger] users[i]).nickname
            != (#[trigger] users[j]).nickname
}

/// `users` with `u` appended, unless a member already has its nickname.
pub open spec fn with_member(users: Seq<UserView>, u: UserView) -> Seq<UserView> {
    if has_member(users, u.nickname) {
        users
    } else {
        users.push(u)
    }
}

/// `users` without the member called `nick`.
pub open spec fn without_member(users: Seq<UserView>, nick: Seq<char>) -> Seq<UserView> {
    if has_member(users, nick) {
        users.remove(member_index(users, nick))
    } else {
        users
    }
}

/// `users` after `old_nick` became `new_nick`: the member keeps its place and
/// status, and a stale member already called `new_nick` is dropped.
pub open spec fn renamed_members(users: Seq<UserView>, old_nick: Seq<char>, new_nick: Seq<char>) -> Seq<
    UserView,
> {
    if !has_member(users, old_nick) || old_nick == new_nick {
        users
    } else {
        let io = member_index(users, old_nick);
        let updated = users.update(io, UserView { nickname: new_nick, status: users[io].status });
        if has_member(users, new_nick) {
            updated.remove(member_index(users, new_nick))
        } else {
            updated
        }
    }
}

/// `users` after the mode delta `mode` was applied to the member `nick`.
pub open spec fn moded_members(users: Seq<UserView>, nick: Seq<char>, mode: Seq<char>) -> Seq<
    UserView,
> {
    if has_member(users, nick) {
        let i = member_index(users, nick);
        users.update(i, UserView { nickname: nick, status: next_status(users[i].status, mode) })
    } else {
        users
    }
}

/// A channel as a value.
pub struct ChannelView {
    /// The key the channel is filed under: its name in lower case.
    pub id: Seq<char>,
    pub name: Seq<char>,
    pub topic: Option<Seq<char>>,
    pub users: Seq<UserView>,
}

/// A channel with the given name, no topic and no members.
pub open spec fn empty_channel(name: Seq<char>) -> ChannelView {
    ChannelView { id: lower_of(name), name, topic: None, users: Seq::empty() }
}

/// The topic that a topic string stands for: an empty one means no topic.
pub open spec fn topic_of(topic: Seq<char>) -> Option<Seq<char>> {
    if topic.len() == 0 {
        None
    } else {
        Some(topic)
    }
}

/// The channel's key is its lower-cased name, and its members have distinct
/// nicknames.
pub open spec fn channel_wf(c: ChannelView) -> bool {
    c.id == lower_of(c.name) && unique_nicknames(c.users)
}

proof fn lemma_found(users: Seq<UserView>, nick: Seq<char>, i: int)
    requires
        unique_nicknames(users),
        0 <= i < users.len(),
        users[i].nickname == nick,
    ensures
        has_member(users, nick),
        member_index(users, nick) == i,
{
}

/// A channel: its name, its topic and its members in the order they came.
#[derive(Clone, Debug)]
pub struct Channel {
    id: String,
    name: String,
    topic: Option<String>,
    users: Vec<ChannelUser>,
}

impl View for Channel {
    type V = ChannelView;

    closed spec fn view(&self) -> ChannelView {
        ChannelView {
            id: self.id@,
            name: self.name@,
            topic: match self.topic {
                Some(t) => Some(t@),
                None => None,
            },
            users: self.users@.map_values(|u: ChannelUser| u@),
        }
    }
}

impl Channel {
    /// The channel is well formed.
    pub open spec fn wf(&self) -> bool {
        channel_wf(self@)
    }

    /// A channel with the given name, no topic and no members.
    pub fn new(name: &str) -> (r: Channel)
        ensures
            r@ == empty_channel(name@),
            r.wf(),
    {
        let r = Channel { id: to_lower(name), name: name.to_owned(), topic: None, users: Vec::new() };
        assert(r@.users =~= Seq::<UserView>::empty());
        r
    }

    /// An equal copy of the channel.
    pub fn duplicate(&self) -> (r: Channel)
        ensures
            r@ == self@,
    {
        let mut users: Vec<ChannelUser> = Vec::new();
        let mut i: usize = 0;
        while i < self.users.len()
            invariant
                i <= self.users@.len(),
                users@.len() == i,
                forall|k: int| 0 <= k < i ==> (#[trigger] users@[k])@ == self.users@[k]@,
            decreases self.users@.len() - i,
        {
            users.push(self.users[i].duplicate());
            i = i + 1;
        }
        let topic = match &self.topic {
            Some(t) => Some(t.clone()),
            None => None,
        };
        let r = Channel { id: self.id.clone(), name: self.name.clone(), topic, users };
        assert(r@.users =~= self@.users);
        r
    }

    /// The name of the channel, as first seen.
    pub fn name(&self) -> (r: &str)
        ensures
            r@ == self@.name,
    {
        self.name.as_str()
    }

    /// The key of the channel: its name in lower case.
    pub fn id(&self) -> (r: &str)
        ensures
            r@ == self@.id,
    {
        self.id.as_str()
    }

    /// The topic of the channel, if it has one.
    pub fn topic(&self) -> (r: Option<Arc<String>>)
        ensures
            match r {
                Some(t) => self@.topic == Some(t@),
                None => self@.topic is None,
            },
    {
        match &self.topic {
            Some(t) => Some(Arc::new(t.clone())),
            None => None,
        }
    }

    /// The topic of the channel as a string, if it has one.
    pub fn topic_string(&self) -> (r: Option<String>)
        ensures
            match r {
                Some(t) => self@.topic == Some(t@),
                None => self@.topic is None,
            },
    {
        match &self.topic {
            Some(t) => Some(t.clone()),
            None => None,
        }
    }

    /// The position of the member called `nickname`, if there is one.
    fn position(&self, nickname: &str) -> (r: Option<usize>)
        requires
            self.wf(),
        ensures
            match r {
                Some(i) => has_member(self@.users, nickname@) && i == member_index(
                    self@.users,
                    nickname@,
                ) && i < self@.users.len(),
                None => !has_member(self@.users, nickname@),
            },
    {
        let wanted = nickname.to_owned();
        let mut i: usize = 0;
        while i < self.users.len()
            invariant
                i <= self.users@.len(),
                self.wf(),
                wanted@ == nickname@,
                forall|k: int| 0 <= k < i ==> (#[trigger] self@.users[k]).nickname != nickname@,
            decreases self.users@.len() - i,
        {
            let found = self.users[i].nickname().to_owned() == wanted;
            if found {
                proof {
                    assert(self@.users[i as int] == self.users@[i as int]@);
                    lemma_found(self@.users, nickname@, i as int);
                }
                return Some(i);
            }
            proof {
                assert(self@.users[i as int] == self.users@[i as int]@);
            }
            i = i + 1;
        }
        None
    }

    /// The member called `nickname`, if there is one.
    pub fn user(&self, nickname: &str) -> (r: Option<&ChannelUser>)
        requires
            self.wf(),
        ensures
            match r {
                Some(u) => has_member(self@.users, nickname@) && u@ == self@.users[member_index(
                    self@.users,
                    nickname@,
                )],
                None => !has_member(self@.users, nickname@),
            },
    {
        match self.position(nickname) {
            Some(i) => Some(&self.users[i]),
            None => None,
        }
    }

    /// The members of the channel, in the order they came.
    pub fn users(&self) -> (r: &[ChannelUser])
        ensures
            r@.map_values(|u: ChannelUser| u@) == self@.users,
    {
        self.users.as_slice()
    }

    /// Adds a member, unless one with the same nickname is there already.
    pub fn add_user(&mut self, user: Arc<ChannelUser>)
        requires
            old(self).wf(),
        ensures
            final(self).wf(),
            final(self)@ == (ChannelView { users: with_member(old(self)@.users, user@), ..old(self)@ }),
    {
        self.push_member(user.duplicate());
    }

    fn push_member(&mut self, user: ChannelUser)
        requires
            old(self).wf(),
        ensures
            final(self).wf(),
            final(self)@ == (ChannelView { users: with_member(old(self)@.users, user@), ..old(self)@ }),
    {
        match self.position(user.nickname()) {
            Some(_) => {},
            None => {
                let ghost before = self@.users;
                self.users.push(user);
                proof {
                    assert(self@.users =~= before.push(user@));
                }
            },
        }
    }

    /// Adds the member that a raw name-list token such as `@alice` describes,
    /// unless one with that nickname is there already.
    pub fn add_raw_user(&mut self, raw: &str)
        requires
            old(self).wf(),
        ensures
            final(self).wf(),
            final(self)@ == (ChannelView {
                users: with_member(old(self)@.users, decode_member(raw@)),
                ..old(self)@
            }),
    {
        self.push_member(ChannelUser::from_raw(raw));
    }

    /// Removes the member called `nickname` and hands it back, if there is one.
    pub fn remove_user(&mut self, nickname: &str) -> (r: Option<ChannelUser>)
        requires
            old(self).wf(),
        ensures
            final(self).wf(),
            final(self)@ == (ChannelView {
                users: without_member(old(self)@.users, nickname@),
                ..old(self)@
            }),
            match r {
                Some(u) => has_member(old(self)@.users, nickname@) && u@ == old(self)@.users[member_index(
                    old(self)@.users,
                    nickname@,
                )],
                None => !has_member(old(self)@.users, nickname@),
            },
    {
        match self.position(nickname) {
            Some(i) => {
                let ghost before = self@.users;
                let u = self.users.remove(i);
                proof {
                    assert(self@.users =~= before.remove(i as int));
                }
                Some(u)
            },
            None => None,
        }
    }

    /// Renames the member called `old_nick` in place; a stale member already
    /// called `new_nick` is dropped, so nicknames stay distinct.
    pub fn rename_user(&mut self, old_nick: &str, new_nick: &str)
        requires
            old(self).wf(),
        ensures
            final(self).wf(),
            final(self)@ == (ChannelView {
                users: renamed_members(old(self)@.users, old_nick@, new_nick@),
                ..old(self)@
            }),
    {
        let io = match self.position(old_nick) {
            Some(io) => io,
            None => return,
        };
        let clash = self.position(new_nick);
        let ghost before = self@.users;
        match clash {
            Some(inew) => {
                if inew == io {
                    return;
                }
                self.users[io].set_nickname(new_nick);
                let ghost updated = self@.users;
                proof {
                    assert(updated =~= before.update(
                        io as int,
                        UserView { nickname: new_nick@, status: before[io as int].status },
                    ));
                }
                self.users.remove(inew);
                proof {
                    assert(self@.users =~= updated.remove(inew as int));
                    assert forall|i: int, j: int|
                        0 <= i < self@.users.len() && 0 <= j < self@.users.len() && i != j
                            implies (#[trigger] self@.users[i]).nickname
                            != (#[trigger] self@.users[j]).nickname by {
                        let oi = if i < inew { i } else { i + 1 };
                        let oj = if j < inew { j } else { j + 1 };
                        assert(self@.users[i] == updated[oi]);
                        assert(self@.users[j] == updated[oj]);
                        assert(before[oi].nickname != before[inew as int].nickname);
                        assert(before[oj].nickname != before[inew as int].nickname);
                    }
                }
            },
            None => {
                self.users[io].set_nickname(new_nick);
                proof {
                    assert(self@.users =~= before.update(
                        io as int,
                        UserView { nickname: new_nick@, status: before[io as int].status },
                    ));
                }
            },
        }
    }

    /// Applies a mode delta such as `+o` to the member called `nickname`, and
    /// gives its status before and after, if there is such a member.
    pub fn update_user_mode(&mut self, nickname: &str, mode: &str) -> (r: Option<
        (ChannelUserStatus, ChannelUserStatus),
    >)
        requires
            old(self).wf(),
        ensures
            final(self).wf(),
            final(self)@ == (ChannelView {
                users: moded_members(old(self)@.users, nickname@, mode@),
                ..old(self)@
            }),
            match r {
                Some((before, after)) => has_member(old(self)@.users, nickname@) && before == old(
                    self,
                )@.users[member_index(old(self)@.users, nickname@)].status && after == next_status(
                    before,
                    mode@,
                ),
                None => !has_member(old(self)@.users, nickname@),
            },
    {
        match self.position(nickname) {
            Some(i) => {
                let ghost users = self@.users;
                let before = self.users[i].status();
                let after = translate_mode(before, mode);
                self.users[i].set_status(after);
                proof {
                    assert(self@.users =~= users.update(
                        i as int,
                        UserView { nickname: nickname@, status: after },
                    ));
                }
                Some((before, after))
            },
            None => None,
        }
    }

    /// Sets the topic; an empty string clears it.
    pub fn set_topic(&mut self, topic: &str)
        ensures
            final(self)@ == (ChannelView { topic: topic_of(topic@), ..old(self)@ }),
    {
        if topic.is_empty() {
            self.topic = None;
        } else {
            self.topic = Some(topic.to_owned());
        }
    }
}

} // verus!
