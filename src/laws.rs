//! Properties of the store and the dispatcher that hold for all inputs.

use vstd::prelude::*;

use crate::channel::{
    channel_wf, empty_channel, find_member, has_member, member_index, renamed_members, unique_nicknames,
    with_member, without_member, ChannelView,
};
use crate::command::{has_line_break, is_wire_line};
use crate::dispatch::{name_reply_effect, names_added, step};
use crate::message::Event;
use crate::settings::SettingsView;
use crate::state::{
    channel_index, channels_wf, has_channel, removed_everywhere, renamed_everywhere, user_added,
    with_channel, IrcView,
};
use crate::text::{lower_of, split_spaces};
use crate::user::{decode_member, next_status, sigil_status, ChannelUserStatus, UserView};

verus! {

/// Decoding a name-list token strips exactly one leading sigil and takes the
/// status from it: `~` and `&` owner, `@` operator, `%` half-operator, `+`
/// voice; a token without a sigil keeps every character and is normal.
pub proof fn sigil_decoding(c: char, nick: Seq<char>)
    ensures
        (c == '~' || c == '&') ==> decode_member(seq![c] + nick) == (UserView {
            nickname: nick,
            status: ChannelUserStatus::Owner,
        }),
        c == '@' ==> decode_member(seq![c] + nick) == (UserView {
            nickname: nick,
            status: ChannelUserStatus::Operator,
        }),
        c == '%' ==> decode_member(seq![c] + nick) == (UserView {
            nickname: nick,
            status: ChannelUserStatus::HalfOperator,
        }),
        c == '+' ==> decode_member(seq![c] + nick) == (UserView {
            nickname: nick,
            status: ChannelUserStatus::Voice,
        }),
        sigil_status(c) is None ==> decode_member(seq![c] + nick) == (UserView {
            nickname: seq![c] + nick,
            status: ChannelUserStatus::Normal,
        }),
        decode_member(Seq::empty()) == (UserView {
            nickname: Seq::<char>::empty(),
            status: ChannelUserStatus::Normal,
        }),
{
    let raw = seq![c] + nick;
    assert(raw[0] == c);
    assert(raw.drop_first() =~= nick);
}

/// The mode table: each of `+v -v +h -h +o -o` applied to each
/// status, and every other delta leaves the status as it is.
pub proof fn mode_table()
    ensures
        next_status(ChannelUserStatus::Normal, seq!['+', 'v']) == ChannelUserStatus::Voice,
        next_status(ChannelUserStatus::Normal, seq!['-', 'v']) == ChannelUserStatus::Normal,
        next_status(ChannelUserStatus::Normal, seq!['+', 'h']) == ChannelUserStatus::HalfOperator,
        next_status(ChannelUserStatus::Normal, seq!['-', 'h']) == ChannelUserStatus::Normal,
        next_status(ChannelUserStatus::Normal, seq!['+', 'o']) == ChannelUserStatus::Operator,
        next_status(ChannelUserStatus::Normal, seq!['-', 'o']) == ChannelUserStatus::Normal,
        next_status(ChannelUserStatus::Voice, seq!['+', 'v']) == ChannelUserStatus::Voice,
        next_status(ChannelUserStatus::Voice, seq!['-', 'v']) == ChannelUserStatus::Normal,
        next_status(ChannelUserStatus::Voice, seq!['+', 'h']) == ChannelUserStatus::HalfOperator,
        next_status(ChannelUserStatus::Voice, seq!['-', 'h']) == ChannelUserStatus::Voice,
        next_status(ChannelUserStatus::Voice, seq!['+', 'o']) == ChannelUserStatus::Operator,
        next_status(ChannelUserStatus::Voice, seq!['-', 'o']) == ChannelUserStatus::Voice,
        next_status(ChannelUserStatus::HalfOperator, seq!['+', 'v'])
            == ChannelUserStatus::HalfOperator,
        next_status(ChannelUserStatus::HalfOperator, seq!['-', 'v'])
            == ChannelUserStatus::HalfOperator,
        next_status(ChannelUserStatus::HalfOperator, seq!['+', 'h'])
            == ChannelUserStatus::HalfOperator,
        next_status(ChannelUserStatus::HalfOperator, seq!['-', 'h']) == ChannelUserStatus::Normal,
        next_status(ChannelUserStatus::HalfOperator, seq!['+', 'o']) == ChannelUserStatus::Operator,
        next_status(ChannelUserStatus::HalfOperator, seq!['-', 'o'])
            == ChannelUserStatus::HalfOperator,
        next_status(ChannelUserStatus::Operator, seq!['+', 'v']) == ChannelUserStatus::Operator,
        next_status(ChannelUserStatus::Operator, seq!['-', 'v']) == ChannelUserStatus::Operator,
        next_status(ChannelUserStatus::Operator, seq!['+', 'h']) == ChannelUserStatus::Operator,
        next_status(ChannelUserStatus::Operator, seq!['-', 'h']) == ChannelUserStatus::Operator,
        next_status(ChannelUserStatus::Operator, seq!['+', 'o']) == ChannelUserStatus::Operator,
        next_status(ChannelUserStatus::Operator, seq!['-', 'o']) == ChannelUserStatus::Normal,
        next_status(ChannelUserStatus::Owner, seq!['+', 'v']) == ChannelUserStatus::Owner,
        next_status(ChannelUserStatus::Owner, seq!['-', 'v']) == ChannelUserStatus::Owner,
        next_status(ChannelUserStatus::Owner, seq!['+', 'h']) == ChannelUserStatus::Owner,
        next_status(ChannelUserStatus::Owner, seq!['-', 'h']) == ChannelUserStatus::Owner,
        next_status(ChannelUserStatus::Owner, seq!['+', 'o']) == ChannelUserStatus::Owner,
        next_status(ChannelUserStatus::Owner, seq!['-', 'o']) == ChannelUserStatus::Normal,
        forall|s: ChannelUserStatus, m: Seq<char>|
            !(m.len() == 2 && (m[0] == '+' || m[0] == '-') && (m[1] == 'v' || m[1] == 'h' || m[1]
                == 'o')) ==> #[trigger] next_status(s, m) == s,
{
}

/// A drop of the connection forgets every channel: afterwards no name finds
/// one, until name replies fill the store again.
pub proof fn disconnect_forgets_channels(s: SettingsView, st: IrcView, name: Seq<char>)
    ensures
        step(s, st, Event::Disconnected).0.channels.len() == 0,
        !has_channel(step(s, st, Event::Disconnected).0.channels, lower_of(name)),
{
}

/// A command holding a line break can never be the payload of a wire line,
/// so it can never reach `IrcWrite::send_line`.
pub proof fn line_break_never_framed(payload: Seq<char>)
    requires
        has_line_break(payload),
    ensures
        !is_wire_line(payload.push('\n')),
{
    let line = payload.push('\n');
    assert(line.drop_last() =~= payload);
}

proof fn lemma_without_member(users: Seq<UserView>, nick: Seq<char>)
    requires
        unique_nicknames(users),
    ensures
        !has_member(without_member(users, nick), nick),
        unique_nicknames(without_member(users, nick)),
{
    if has_member(users, nick) {
        let i = member_index(users, nick);
        let after = users.remove(i);
        assert forall|j: int| 0 <= j < after.len() implies (#[trigger] after[j]).nickname != nick by {
            if j < i {
                assert(after[j] == users[j]);
            } else {
                assert(after[j] == users[j + 1]);
            }
        }
        assert forall|a: int, b: int|
            0 <= a < after.len() && 0 <= b < after.len() && a != b implies (#[trigger] after[a]).nickname
            != (#[trigger] after[b]).nickname by {
            let oa = if a < i { a } else { a + 1 };
            let ob = if b < i { b } else { b + 1 };
            assert(after[a] == users[oa]);
            assert(after[b] == users[ob]);
        }
    }
}

/// A quit leaves no trace of the user: afterwards no channel has a member by
/// that nickname, and every channel still has distinct nicknames.
pub proof fn quit_removes_everywhere(chs: Seq<ChannelView>, nick: Seq<char>, k: int)
    requires
        channels_wf(chs),
        0 <= k < chs.len(),
    ensures
        !has_member(removed_everywhere(chs, nick)[k].users, nick),
        unique_nicknames(removed_everywhere(chs, nick)[k].users),
        removed_everywhere(chs, nick)[k].id == chs[k].id,
{
    assert(channel_wf(chs[k]));
    lemma_without_member(chs[k].users, nick);
}

/// A rename reaches exactly the channels that had the old nickname: there
/// the member now has the new nickname and its old status, the old nickname
/// is gone and nicknames stay distinct; every other channel is unchanged.
pub proof fn rename_reaches_holders_only(
    chs: Seq<ChannelView>,
    old_nick: Seq<char>,
    new_nick: Seq<char>,
    k: int,
)
    requires
        channels_wf(chs),
        0 <= k < chs.len(),
        old_nick != new_nick,
    ensures
        has_member(chs[k].users, old_nick) ==> {
            let after = renamed_everywhere(chs, old_nick, new_nick)[k];
            &&& !has_member(after.users, old_nick)
            &&& find_member(after.users, new_nick) == Some(
                UserView {
                    nickname: new_nick,
                    status: find_member(chs[k].users, old_nick)->0.status,
                },
            )
            &&& unique_nicknames(after.users)
        },
        !has_member(chs[k].users, old_nick) ==> renamed_everywhere(chs, old_nick, new_nick)[k]
            == chs[k],
{
    assert(channel_wf(chs[k]));
    let users = chs[k].users;
    if has_member(users, old_nick) {
        let after = renamed_members(users, old_nick, new_nick);
        let io = member_index(users, old_nick);
        let moved = UserView { nickname: new_nick, status: users[io].status };
        let updated = users.update(io, moved);
        if has_member(users, new_nick) {
            let inew = member_index(users, new_nick);
            assert(after == updated.remove(inew));
            let pos = if io < inew { io } else { io - 1 };
            assert(after[pos] == moved);
            assert forall|j: int| 0 <= j < after.len() && j != pos implies (#[trigger] after[j]).nickname
                != old_nick && after[j].nickname != new_nick by {
                let oj = if j < inew { j } else { j + 1 };
                assert(after[j] == updated[oj]);
                assert(oj != io);
            }
            assert forall|a: int, b: int|
                0 <= a < after.len() && 0 <= b < after.len() && a != b implies (
                #[trigger] after[a]).nickname != (#[trigger] after[b]).nickname by {
                let oa = if a < inew { a } else { a + 1 };
                let ob = if b < inew { b } else { b + 1 };
                assert(after[a] == updated[oa]);
                assert(after[b] == updated[ob]);
            }
        } else {
            assert(after == updated);
            assert(after[io] == moved);
            assert forall|j: int| 0 <= j < after.len() && j != io implies (#[trigger] after[j]).nickname
                != old_nick && after[j].nickname != new_nick by {
                assert(after[j] == users[j]);
            }
            assert forall|a: int, b: int|
                0 <= a < after.len() && 0 <= b < after.len() && a != b implies (
                #[trigger] after[a]).nickname != (#[trigger] after[b]).nickname by {
                assert(after[a] == updated[a]);
                assert(after[b] == updated[b]);
            }
        }
    }
}

proof fn lemma_with_member(users: Seq<UserView>, u: UserView)
    requires
        unique_nicknames(users),
    ensures
        unique_nicknames(with_member(users, u)),
        has_member(with_member(users, u), u.nickname),
        has_member(users, u.nickname) ==> with_member(users, u) == users,
        forall|n: Seq<char>| has_member(users, n) ==> #[trigger] has_member(with_member(users, u), n),
{
    let after = with_member(users, u);
    if !has_member(users, u.nickname) {
        assert(after[users.len() as int] == u);
        assert forall|n: Seq<char>| has_member(users, n) implies #[trigger] has_member(after, n) by {
            let i = member_index(users, n);
            assert(after[i] == users[i]);
        }
    }
}

proof fn lemma_user_added(chs: Seq<ChannelView>, id: Seq<char>, raw: Seq<char>)
    requires
        channels_wf(chs),
    ensures
        ({
            let after = user_added(chs, id, raw);
            &&& channels_wf(after)
            &&& after.len() == chs.len()
            &&& forall|key: Seq<char>| #[trigger] has_channel(after, key) == has_channel(chs, key)
            &&& forall|key: Seq<char>|
                has_channel(chs, key) ==> #[trigger] channel_index(after, key) == channel_index(
                    chs,
                    key,
                )
            &&& has_channel(chs, id) ==> {
                let ci = channel_index(chs, id);
                &&& has_member(after[ci].users, decode_member(raw).nickname)
                &&& forall|n: Seq<char>|
                    has_member(chs[ci].users, n) ==> #[trigger] has_member(after[ci].users, n)
                &&& has_member(chs[ci].users, decode_member(raw).nickname) ==> after == chs
            }
        }),
{
    let after = user_added(chs, id, raw);
    if has_channel(chs, id) {
        let ci = channel_index(chs, id);
        let c = chs[ci];
        assert(channel_wf(c));
        lemma_with_member(c.users, decode_member(raw));
        let c2 = ChannelView { users: with_member(c.users, decode_member(raw)), ..c };
        assert(after == chs.update(ci, c2));
        assert(channel_wf(c2));
        assert forall|i: int| 0 <= i < after.len() implies #[trigger] after[i].id == chs[i].id by {}
        assert forall|i: int| 0 <= i < after.len() implies channel_wf(#[trigger] after[i]) by {}
        assert forall|key: Seq<char>| #[trigger] has_channel(after, key) == has_channel(chs, key) by {
            if has_channel(chs, key) {
                let j = channel_index(chs, key);
                assert(after[j].id == key);
            }
            if has_channel(after, key) {
                let j = channel_index(after, key);
                assert(chs[j].id == key);
            }
        }
        assert forall|key: Seq<char>| has_channel(chs, key) implies #[trigger] channel_index(
            after,
            key,
        ) == channel_index(chs, key) by {
            let j = channel_index(chs, key);
            assert(after[j].id == key);
            let a = channel_index(after, key);
            assert(chs[a].id == key);
        }
        if has_member(c.users, decode_member(raw).nickname) {
            assert(after =~= chs);
        }
    }
}

/// The channels after a name list, and what holds of them: still well
/// formed, the channel still filed where it was, and every member named in
/// the list present in it.
proof fn lemma_names_added(chs: Seq<ChannelView>, id: Seq<char>, pieces: Seq<Seq<char>>)
    requires
        channels_wf(chs),
        has_channel(chs, id),
    ensures
        ({
            let after = names_added(chs, id, pieces);
            let ci = channel_index(chs, id);
            &&& channels_wf(after)
            &&& has_channel(after, id)
            &&& channel_index(after, id) == ci
            &&& forall|j: int|
                0 <= j < pieces.len() && (#[trigger] pieces[j]).len() > 0 ==> has_member(
                    after[ci].users,
                    decode_member(pieces[j]).nickname,
                )
        }),
    decreases pieces.len(),
{
    if pieces.len() > 0 {
        let init = pieces.drop_last();
        lemma_names_added(chs, id, init);
        let before = names_added(chs, id, init);
        let ci = channel_index(chs, id);
        if pieces.last().len() > 0 {
            lemma_user_added(before, id, pieces.last());
        }
        let after = names_added(chs, id, pieces);
        assert forall|j: int|
            0 <= j < pieces.len() && (#[trigger] pieces[j]).len() > 0 implies has_member(
            after[ci].users,
            decode_member(pieces[j]).nickname,
        ) by {
            if j < pieces.len() - 1 {
                assert(pieces[j] == init[j]);
            }
        }
    }
}

/// A name list whose members are all present already changes nothing.
proof fn lemma_names_present(chs: Seq<ChannelView>, id: Seq<char>, pieces: Seq<Seq<char>>)
    requires
        channels_wf(chs),
        has_channel(chs, id),
        forall|j: int|
            0 <= j < pieces.len() && (#[trigger] pieces[j]).len() > 0 ==> has_member(
                chs[channel_index(chs, id)].users,
                decode_member(pieces[j]).nickname,
            ),
    ensures
        names_added(chs, id, pieces) == chs,
    decreases pieces.len(),
{
    if pieces.len() > 0 {
        let init = pieces.drop_last();
        assert forall|j: int|
            0 <= j < init.len() && (#[trigger] init[j]).len() > 0 implies has_member(
            chs[channel_index(chs, id)].users,
            decode_member(init[j]).nickname,
        ) by {
            assert(init[j] == pieces[j]);
        }
        lemma_names_present(chs, id, init);
        if pieces.last().len() > 0 {
            assert(pieces.last() == pieces[pieces.len() - 1]);
            lemma_user_added(chs, id, pieces.last());
        }
    }
}

proof fn lemma_with_channel(chs: Seq<ChannelView>, name: Seq<char>)
    requires
        channels_wf(chs),
    ensures
        channels_wf(with_channel(chs, name)),
        has_channel(with_channel(chs, name), lower_of(name)),
        has_channel(chs, lower_of(name)) ==> with_channel(chs, name) == chs,
{
    let after = with_channel(chs, name);
    if !has_channel(chs, lower_of(name)) {
        let n = chs.len() as int;
        assert(after[n] == empty_channel(name));
        assert(channel_wf(empty_channel(name)));
        assert forall|i: int| 0 <= i < after.len() implies channel_wf(#[trigger] after[i]) by {
            if i < n {
                assert(after[i] == chs[i]);
            }
        }
        assert forall|i: int, j: int|
            0 <= i < after.len() && 0 <= j < after.len() && i != j implies (#[trigger] after[i]).id
            != (#[trigger] after[j]).id by {
            if i < n {
                assert(after[i] == chs[i]);
            }
            if j < n {
                assert(after[j] == chs[j]);
            }
        }
    }
}

/// Name replies keep the store well formed: every channel stays filed under
/// its lower-cased name and no channel gets two members with one nickname.
/// The channel a name reply names is there afterwards, and the same name
/// reply a second time changes nothing.
pub proof fn name_reply_idempotent(chs: Seq<ChannelView>, args: Seq<Seq<char>>)
    requires
        channels_wf(chs),
    ensures
        channels_wf(name_reply_effect(chs, args)),
        args.len() >= 3 ==> has_channel(name_reply_effect(chs, args), lower_of(args[2])),
        name_reply_effect(name_reply_effect(chs, args), args) == name_reply_effect(chs, args),
{
    if args.len() >= 3 {
        let name = args[2];
        let id = lower_of(name);
        let pieces = split_spaces(args.last());
        let start = with_channel(chs, name);
        lemma_with_channel(chs, name);
        lemma_names_added(start, id, pieces);
        let once = names_added(start, id, pieces);
        lemma_with_channel(once, name);
        lemma_names_present(once, id, pieces);
    }
}

} // verus!
