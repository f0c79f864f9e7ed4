//! The channel store of a connection and the connection's status.

use vstd::prelude::*;

use crate::channel::{
    channel_wf, has_member, member_index, empty_channel, moded_members, renamed_members, topic_of, with_member,
    without_member, Channel, ChannelView,
};
use crate::text::{lower_of, to_lower};
use crate::user::{decode_member, next_status, ChannelUser, ChannelUserStatus};

verus! {

/// Status of the connection.
#[derive(Clone, Copy, Debug)]
pub enum ConnectionStatus {
    /// The connection was closed, for the given reason.
    Closed(&'static str),
    /// The connection is alive.
    Connected,
    /// The connection dropped.
    Disconnected,
    /// An attempt to reconnect is under way.
    Reconnecting,
}

/// Whether a channel is filed under `id`.
pub open spec fn has_channel(chs: Seq<ChannelView>, id: Seq<char>) -> bool {
    exists|i: int| 0 <= i < chs.len() && (#[trigger] chs[i]).id == id
}

/// The position of the channel filed under `id`, when there is one.
pub open spec fn channel_index(chs: Seq<ChannelView>, id: Seq<char>) -> int {
    choose|i: int| 0 <= i < chs.len() && (#[trigger] chs[i]).id == id
}

/// Every channel is well formed and no two share a key.
pub open spec fn channels_wf(chs: Seq<ChannelView>) -> bool {
    &&& forall|i: int| 0 <= i < chs.len() ==> channel_wf(#[trigger] chs[i])
    &&& forall|i: int, j: int|
        0 <= i < chs.len() && 0 <= j < chs.len() && i != j ==> (#[trigger] chs[i]).id != (
        #[trigger] chs[j]).id
}

/// The channel filed under `id`, if there is one.
pub open spec fn lookup(chs: Seq<ChannelView>, id: Seq<char>) -> Option<ChannelView> {
    if has_channel(chs, id) {
        Some(chs[channel_index(chs, id)])
    } else {
        None
    }
}

/// The channels after a channel called `name` was made sure to exist.
pub open spec fn with_channel(chs: Seq<ChannelView>, name: Seq<char>) -> Seq<ChannelView> {
    if has_channel(chs, lower_of(name)) {
        chs
    } else {
        chs.push(empty_channel(name))
    }
}

/// The channels after `f` was applied to the one filed under `id`.
pub open spec fn channel_changed(
    chs: Seq<ChannelView>,
    id: Seq<char>,
    f: spec_fn(ChannelView) -> ChannelView,
) -> Seq<ChannelView> {
    if has_channel(chs, id) {
        let i = channel_index(chs, id);
        chs.update(i, f(chs[i]))
    } else {
        chs
    }
}

/// The channels after the topic of the one filed under `id` was set.
pub open spec fn topic_set(chs: Seq<ChannelView>, id: Seq<char>, topic: Seq<char>) -> Seq<ChannelView> {
    channel_changed(chs, id, |c: ChannelView| ChannelView { topic: topic_of(topic), ..c })
}

/// The channels after the member a raw token describes joined the one filed
/// under `id`.
pub open spec fn user_added(chs: Seq<ChannelView>, id: Seq<char>, raw: Seq<char>) -> Seq<ChannelView> {
    channel_changed(
        chs,
        id,
        |c: ChannelView| ChannelView { users: with_member(c.users, decode_member(raw)), ..c },
    )
}

/// The channels after `nick` left the one filed under `id`.
pub open spec fn user_removed(chs: Seq<ChannelView>, id: Seq<char>, nick: Seq<char>) -> Seq<ChannelView> {
    channel_changed(chs, id, |c: ChannelView| ChannelView { users: without_member(c.users, nick), ..c })
}

/// The channels after a mode delta was applied to `nick` in the one filed
/// under `id`.
pub open spec fn user_moded(chs: Seq<ChannelView>, id: Seq<char>, nick: Seq<char>, mode: Seq<char>) -> Seq<
    ChannelView,
> {
    channel_changed(
        chs,
        id,
        |c: ChannelView| ChannelView { users: moded_members(c.users, nick, mode), ..c },
    )
}

/// The channels after `old_nick` became `new_nick` everywhere.
pub open spec fn renamed_everywhere(chs: Seq<ChannelView>, old_nick: Seq<char>, new_nick: Seq<char>) -> Seq<
    ChannelView,
> {
    chs.map_values(
        |c: ChannelView| ChannelView { users: renamed_members(c.users, old_nick, new_nick), ..c },
    )
}

/// The channels after `nick` left every one of them.
pub open spec fn removed_everywhere(chs: Seq<ChannelView>, nick: Seq<char>) -> Seq<ChannelView> {
    chs.map_values(|c: ChannelView| ChannelView { users: without_member(c.users, nick), ..c })
}

/// The channels and the connection status, as values.
pub struct IrcView {
    pub channels: Seq<ChannelView>,
    pub status: ConnectionStatus,
}

proof fn lemma_channel_found(chs: Seq<ChannelView>, id: Seq<char>, i: int)
    requires
        channels_wf(chs),
        0 <= i < chs.len(),
        chs[i].id == id,
    ensures
        has_channel(chs, id),
        channel_index(chs, id) == i,
{
}

/// The channels of a connection, each with its members and topic, and the
/// status of the connection.
///
/// Channels are created the first time an event names them and are filed
/// under their lower-cased name; all of them go when the connection drops.
#[derive(Clone, Debug)]
pub struct Irc {
    channels: Vec<Channel>,
    status: ConnectionStatus,
}

impl View for Irc {
    type V = IrcView;

    closed spec fn view(&self) -> IrcView {
        IrcView { channels: self.channels@.map_values(|c: Channel| c@), status: self.status }
    }
}

impl Irc {
    /// The store is well formed.
    pub open spec fn wf(&self) -> bool {
        channels_wf(self@.channels)
    }

    /// No channels, and a live connection.
    pub fn new() -> (r: Irc)
        ensures
            r.wf(),
            r@.channels == Seq::<ChannelView>::empty(),
            r@.status is Connected,
    {
        let r = Irc { channels: Vec::new(), status: ConnectionStatus::Connected };
        assert(r@.channels =~= Seq::<ChannelView>::empty());
        r
    }

    /// The status of the connection.
    pub fn status(&self) -> (r: ConnectionStatus)
        ensures
            r == self@.status,
    {
        self.status
    }

    /// Sets the status of the connection.
    pub fn set_status(&mut self, status: ConnectionStatus)
        requires
            old(self).wf(),
        ensures
            final(self).wf(),
            final(self)@ == (IrcView { status, ..old(self)@ }),
    {
        self.status = status;
    }

    /// All channels, in the order they were first seen.
    pub fn channels(&self) -> (r: &[Channel])
        ensures
            r@.map_values(|c: Channel| c@) == self@.channels,
    {
        self.channels.as_slice()
    }

    /// The position of the channel filed under `id`, if there is one.
    fn position(&self, id: &str) -> (r: Option<usize>)
        requires
            self.wf(),
        ensures
            match r {
                Some(i) => has_channel(self@.channels, id@) && i == channel_index(
                    self@.channels,
                    id@,
                ) && i < self@.channels.len(),
                None => !has_channel(self@.channels, id@),
            },
    {
        let wanted = id.to_owned();
        let mut i: usize = 0;
        while i < self.channels.len()
            invariant
                i <= self.channels@.len(),
                self.wf(),
                wanted@ == id@,
                forall|k: int| 0 <= k < i ==> (#[trigger] self@.channels[k]).id != id@,
            decreases self.channels@.len() - i,
        {
            proof {
                assert(self@.channels[i as int] == self.channels@[i as int]@);
            }
            if self.channels[i].id().to_owned() == wanted {
                proof {
                    lemma_channel_found(self@.channels, id@, i as int);
                }
                return Some(i);
            }
            i = i + 1;
        }
        None
    }

    /// The channel filed under `id`, a lower-cased name.
    pub fn get_channel_by_id(&self, id: &str) -> (r: Option<&Channel>)
        requires
            self.wf(),
        ensures
            match r {
                Some(c) => has_channel(self@.channels, id@) && c@ == self@.channels[channel_index(
                    self@.channels,
                    id@,
                )] && c.wf(),
                None => !has_channel(self@.channels, id@),
            },
    {
        match self.position(id) {
            Some(i) => {
                proof {
                    assert(self@.channels[i as int] == self.channels@[i as int]@);
                }
                Some(&self.channels[i])
            },
            None => None,
        }
    }

    /// The channel with the given name, in any letter case.
    pub fn channel(&self, name: &str) -> (r: Option<&Channel>)
        requires
            self.wf(),
        ensures
            match r {
                Some(c) => has_channel(self@.channels, lower_of(name@)) && c@ == self@.channels[channel_index(
                    self@.channels,
                    lower_of(name@),
                )] && c.wf(),
                None => !has_channel(self@.channels, lower_of(name@)),
            },
    {
        let id = to_lower(name);
        self.get_channel_by_id(id.as_str())
    }

    /// Makes sure that a channel called `name` exists; it is filed under the
    /// lower-cased name.
    pub fn ensure_channel_exists(&mut self, name: &str)
        requires
            old(self).wf(),
        ensures
            final(self).wf(),
            final(self)@ == (IrcView {
                channels: with_channel(old(self)@.channels, name@),
                ..old(self)@
            }),
    {
        let channel = Channel::new(name);
        match self.position(channel.id()) {
            Some(_) => {},
            None => {
                let ghost before = self@.channels;
                self.channels.push(channel);
                proof {
                    assert(self@.channels =~= before.push(empty_channel(name@)));
                }
            },
        }
    }

    /// Sets the topic of the channel filed under `id`, if there is one; an
    /// empty topic clears it.
    pub fn channel_set_topic(&mut self, id: &str, topic: &str)
        requires
            old(self).wf(),
        ensures
            final(self).wf(),
            final(self)@ == (IrcView {
                channels: topic_set(old(self)@.channels, id@, topic@),
                ..old(self)@
            }),
    {
        if let Some(i) = self.position(id) {
            let ghost before = self@.channels;
            self.channels[i].set_topic(topic);
            proof {
                assert(self@.channels =~= before.update(
                    i as int,
                    ChannelView { topic: topic_of(topic@), ..before[i as int] },
                ));
            }
        }
    }

    /// Adds the member that a raw name-list token describes to the channel
    /// filed under `id`; nothing happens if the channel is unknown or the
    /// nickname is already there.
    pub fn channel_add_user(&mut self, id: &str, raw: &str)
        requires
            old(self).wf(),
        ensures
            final(self).wf(),
            final(self)@ == (IrcView {
                channels: user_added(old(self)@.channels, id@, raw@),
                ..old(self)@
            }),
    {
        if let Some(i) = self.position(id) {
            let ghost before = self@.channels;
            proof {
                assert(self.channels@[i as int]@ == before[i as int]);
            }
            self.channels[i].add_raw_user(raw);
            proof {
                assert(self@.channels =~= before.update(
                    i as int,
                    ChannelView {
                        users: with_member(before[i as int].users, decode_member(raw@)),
                        ..before[i as int]
                    },
                ));
            }
        }
    }

    /// Removes the member called `nickname` from the channel filed under `id`
    /// and hands it back, if both are there.
    pub fn channel_del_user(&mut self, id: &str, nickname: &str) -> (r: Option<ChannelUser>)
        requires
            old(self).wf(),
        ensures
            final(self).wf(),
            final(self)@ == (IrcView {
                channels: user_removed(old(self)@.channels, id@, nickname@),
                ..old(self)@
            }),
            match r {
                Some(u) => has_channel(old(self)@.channels, id@) && {
                    let c = old(self)@.channels[channel_index(old(self)@.channels, id@)];
                    has_member(c.users, nickname@) && u@ == c.users[member_index(
                        c.users,
                        nickname@,
                    )]
                },
                None => !has_channel(old(self)@.channels, id@) || !has_member(
                    old(self)@.channels[channel_index(old(self)@.channels, id@)].users,
                    nickname@,
                ),
            },
    {
        match self.position(id) {
            Some(i) => {
                let ghost before = self@.channels;
                proof {
                    assert(self.channels@[i as int]@ == before[i as int]);
                }
                let r = self.channels[i].remove_user(nickname);
                proof {
                    assert(self@.channels =~= before.update(
                        i as int,
                        ChannelView {
                            users: without_member(before[i as int].users, nickname@),
                            ..before[i as int]
                        },
                    ));
                }
                r
            },
            None => None,
        }
    }

    /// Applies a mode delta such as `+o` to the member called `nickname` of
    /// the channel filed under `id`, and gives its status before and after,
    /// if both are there.
    pub fn channel_update_user_mode(&mut self, id: &str, nickname: &str, mode: &str) -> (r: Option<
        (ChannelUserStatus, ChannelUserStatus),
    >)
        requires
            old(self).wf(),
        ensures
            final(self).wf(),
            final(self)@ == (IrcView {
                channels: user_moded(old(self)@.channels, id@, nickname@, mode@),
                ..old(self)@
            }),
            match r {
                Some((before, after)) => has_channel(old(self)@.channels, id@) && {
                    let c = old(self)@.channels[channel_index(old(self)@.channels, id@)];
                    has_member(c.users, nickname@) && before == c.users[member_index(
                        c.users,
                        nickname@,
                    )].status && after == next_status(before, mode@)
                },
                None => !has_channel(old(self)@.channels, id@) || !has_member(
                    old(self)@.channels[channel_index(old(self)@.channels, id@)].users,
                    nickname@,
                ),
            },
    {
        match self.position(id) {
            Some(i) => {
                let ghost before = self@.channels;
                proof {
                    assert(self.channels@[i as int]@ == before[i as int]);
                }
                let r = self.channels[i].update_user_mode(nickname, mode);
                proof {
                    assert(self@.channels =~= before.update(
                        i as int,
                        ChannelView {
                            users: moded_members(before[i as int].users, nickname@, mode@),
                            ..before[i as int]
                        },
                    ));
                }
                r
            },
            None => None,
        }
    }

    /// Renames `old_nick` to `new_nick` in every channel that has a member
    /// called `old_nick`; the others are left alone.
    pub fn rename_user(&mut self, old_nick: &str, new_nick: &str)
        requires
            old(self).wf(),
        ensures
            final(self).wf(),
            final(self)@ == (IrcView {
                channels: renamed_everywhere(old(self)@.channels, old_nick@, new_nick@),
                ..old(self)@
            }),
    {
        let ghost before = self@.channels;
        let mut i: usize = 0;
        while i < self.channels.len()
            invariant
                i <= self.channels@.len(),
                self.channels@.len() == before.len(),
                self.wf(),
                self@.status == old(self)@.status,
                forall|k: int|
                    0 <= k < i ==> #[trigger] self@.channels[k] == (ChannelView {
                        users: renamed_members(before[k].users, old_nick@, new_nick@),
                        ..before[k]
                    }),
                forall|k: int| i <= k < before.len() ==> #[trigger] self@.channels[k] == before[k],
            decreases self.channels@.len() - i,
        {
            let ghost cur = self@.channels;
            proof {
                assert(self.channels@[i as int]@ == cur[i as int]);
            }
            self.channels[i].rename_user(old_nick, new_nick);
            proof {
                assert(self@.channels =~= cur.update(
                    i as int,
                    ChannelView {
                        users: renamed_members(cur[i as int].users, old_nick@, new_nick@),
                        ..cur[i as int]
                    },
                ));
            }
            i = i + 1;
        }
        proof {
            assert(self@.channels =~= renamed_everywhere(before, old_nick@, new_nick@));
        }
    }

    /// Removes the member called `nickname` from every channel.
    pub fn remove_user_everywhere(&mut self, nickname: &str)
        requires
            old(self).wf(),
        ensures
            final(self).wf(),
            final(self)@ == (IrcView {
                channels: removed_everywhere(old(self)@.channels, nickname@),
                ..old(self)@
            }),
    {
        let ghost before = self@.channels;
        let mut i: usize = 0;
        while i < self.channels.len()
            invariant
                i <= self.channels@.len(),
                self.channels@.len() == before.len(),
                self.wf(),
                self@.status == old(self)@.status,
                forall|k: int|
                    0 <= k < i ==> #[trigger] self@.channels[k] == (ChannelView {
                        users: without_member(before[k].users, nickname@),
                        ..before[k]
                    }),
                forall|k: int| i <= k < before.len() ==> #[trigger] self@.channels[k] == before[k],
            decreases self.channels@.len() - i,
        {
            let ghost cur = self@.channels;
            proof {
                assert(self.channels@[i as int]@ == cur[i as int]);
            }
            self.channels[i].remove_user(nickname);
            proof {
                assert(self@.channels =~= cur.update(
                    i as int,
                    ChannelView { users: without_member(cur[i as int].users, nickname@), ..cur[i as int] },
                ));
            }
            i = i + 1;
        }
        proof {
            assert(self@.channels =~= removed_everywhere(before, nickname@));
        }
    }

    /// Forgets every channel.
    pub fn clear_channels(&mut self)
        requires
            old(self).wf(),
        ensures
            final(self).wf(),
            final(self)@ == (IrcView { channels: Seq::empty(), ..old(self)@ }),
    {
        self.channels.clear();
        proof {
            assert(self@.channels =~= Seq::<ChannelView>::empty());
        }
    }
}

} // verus!
