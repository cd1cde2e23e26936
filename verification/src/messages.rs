//! The chat message list: grouping consecutive messages of one author,
//! date dividers, avatars, and the updates that history events make.

use vstd::prelude::*;
use crate::calendar::{
    date_divider_text, day_of, format_date_divider, instant_in_range, local_day, now_unix_nanos, today_at, today_in_range, today_of,
    valid_instant, valid_julian_day, valid_offset,
    MAX_JULIAN_DAY, MIN_JULIAN_DAY, NANOS_PER_DAY, UNIX_EPOCH_JULIAN_DAY,
};

verus! {

/// Two messages of one author further apart than this start a new group.
pub const GROUP_GAP_NANOS: i128 = 300_000_000_000;

/// A chat message as the server sends it. `created_at` is a Unix timestamp
/// in nanoseconds.
#[derive(Debug)]
pub struct MessageView {
    pub id: u128,
    pub channel_id: u128,
    pub author_id: Option<u128>,
    pub author_name: String,
    pub content: String,
    pub created_at: i128,
}

impl Clone for MessageView {
    fn clone(&self) -> (res: Self)
        ensures
            res == *self,
    {
        MessageView {
            id: self.id,
            channel_id: self.channel_id,
            author_id: self.author_id,
            author_name: self.author_name.clone(),
            content: self.content.clone(),
            created_at: self.created_at,
        }
    }
}

/// A member of the current server.
pub struct MemberView {
    pub user_id: u128,
    pub username: String,
    pub avatar: String,
}

/// A message with what the list needs to draw it.
pub struct EnrichedMessage {
    pub message: MessageView,
    pub avatar_url: String,
    pub is_first: bool,
    pub is_last: bool,
    pub date_divider: Option<String>,
}

/// Local day of the message at index `i`.
pub open spec fn msg_day(msgs: Seq<MessageView>, offset: int, i: int) -> int {
    day_of(msgs[i].created_at as int, offset)
}

/// The message at `i` opens a group: it is the first, or its author, the
/// author id it carries, its day, or a gap of more than five minutes sets it
/// apart from the one before.
pub open spec fn starts_group(msgs: Seq<MessageView>, offset: int, i: int) -> bool {
    i == 0 || {
        let prev = msgs[i - 1];
        let m = msgs[i];
        ||| prev.author_name@ != m.author_name@
        ||| (m.author_id is Some && prev.author_id != m.author_id)
        ||| msg_day(msgs, offset, i - 1) != msg_day(msgs, offset, i)
        ||| m.created_at - prev.created_at > GROUP_GAP_NANOS
    }
}

/// The message at `i` closes a group: it is the last, or the next one is set
/// apart from it (the author id compared is the one this message carries).
pub open spec fn ends_group(msgs: Seq<MessageView>, offset: int, i: int) -> bool {
    i + 1 == msgs.len() || {
        let m = msgs[i];
        let next = msgs[i + 1];
        ||| next.author_name@ != m.author_name@
        ||| (m.author_id is Some && next.author_id != m.author_id)
        ||| msg_day(msgs, offset, i + 1) != msg_day(msgs, offset, i)
        ||| next.created_at - m.created_at > GROUP_GAP_NANOS
    }
}

/// The message at `i` is the first of its local day in the list.
pub open spec fn starts_day(msgs: Seq<MessageView>, offset: int, i: int) -> bool {
    i == 0 || msg_day(msgs, offset, i - 1) != msg_day(msgs, offset, i)
}

/// A member stands for the author of `m` by name, or by id when `m` carries one.
pub open spec fn member_matches(mem: MemberView, m: MessageView) -> bool {
    mem.username@ == m.author_name@ || (m.author_id is Some && m.author_id == Some(mem.user_id))
}

/// Avatar of the first member that matches `m`, if any.
pub open spec fn member_avatar(members: Seq<MemberView>, m: MessageView) -> Option<Seq<char>>
    decreases members.len(),
{
    if members.len() == 0 {
        None
    } else if member_matches(members[0], m) {
        Some(members[0].avatar@)
    } else {
        member_avatar(members.drop_first(), m)
    }
}

/// The avatar drawn for `m`: the user's own avatar for their own messages
/// when they have one, else the matching member's, else the own avatar for
/// their own messages, else none (empty).
pub open spec fn avatar_for(
    m: MessageView,
    members: Seq<MemberView>,
    my_username: Seq<char>,
    my_avatar: Seq<char>,
) -> Seq<char> {
    if my_avatar.len() > 0 && m.author_name@ == my_username {
        my_avatar
    } else {
        match member_avatar(members, m) {
            Some(a) => a,
            None => if m.author_name@ == my_username { my_avatar } else { Seq::empty() },
        }
    }
}

/// Every message lies in the range the calendar supports.
pub open spec fn all_valid_instants(msgs: Seq<MessageView>, offset: int) -> bool {
    forall|i: int| 0 <= i < msgs.len() ==> valid_instant((#[trigger] msgs[i]).created_at as int, offset)
}

/// The divider above `e`, as text.
pub open spec fn divider_text_of(e: EnrichedMessage) -> Option<Seq<char>> {
    match e.date_divider {
        Some(s) => Some(s@),
        None => None,
    }
}

/// `out` is the enrichment of `msgs` seen on local day `today`.
pub open spec fn enriched(
    out: Seq<EnrichedMessage>,
    msgs: Seq<MessageView>,
    members: Seq<MemberView>,
    my_username: Seq<char>,
    my_avatar: Seq<char>,
    offset: int,
    today: int,
) -> bool {
    &&& out.len() == msgs.len()
    &&& forall|i: int| 0 <= i < msgs.len() ==> {
        let e = #[trigger] out[i];
        &&& e.message == msgs[i]
        &&& e.is_first == starts_group(msgs, offset, i)
        &&& e.is_last == ends_group(msgs, offset, i)
        &&& e.avatar_url@ == avatar_for(msgs[i], members, my_username, my_avatar)
        &&& divider_text_of(e) == if starts_day(msgs, offset, i) {
            Some(date_divider_text(msg_day(msgs, offset, i), today))
        } else {
            None
        }
    }
}

fn same_author_id(a: Option<u128>, b: Option<u128>) -> (r: bool)
    ensures
        r == (a == b),
{
    match (a, b) {
        (Some(x), Some(y)) => x == y,
        (None, None) => true,
        _ => false,
    }
}

proof fn lemma_instant_bounds(n: int, offset: int)
    requires
        valid_instant(n, offset),
    ensures
        -400_000_000_000_000_000_000 < n < 300_000_000_000_000_000_000,
{
    let d = NANOS_PER_DAY as int;
    vstd::arithmetic::div_mod::lemma_fundamental_div_mod(n, d);
    let q = n / d;
    assert(MIN_JULIAN_DAY <= q + UNIX_EPOCH_JULIAN_DAY <= MAX_JULIAN_DAY);
    assert(n == d * q + n % d);
}

/// Whether `later` is set apart from `earlier`, comparing the author id that
/// `pivot` carries.
fn apart(
    earlier: &MessageView,
    later: &MessageView,
    pivot_id: Option<u128>,
    other_id: Option<u128>,
    day_earlier: i32,
    day_later: i32,
) -> (r: bool)
    requires
        -400_000_000_000_000_000_000 < earlier.created_at < 300_000_000_000_000_000_000,
        -400_000_000_000_000_000_000 < later.created_at < 300_000_000_000_000_000_000,
    ensures
        r == (earlier.author_name@ != later.author_name@
            || (pivot_id is Some && other_id != pivot_id)
            || day_earlier != day_later
            || later.created_at - earlier.created_at > GROUP_GAP_NANOS),
{
    let names_equal = earlier.author_name == later.author_name;
    !names_equal
        || (pivot_id.is_some() && !same_author_id(other_id, pivot_id))
        || day_earlier != day_later
        || later.created_at - earlier.created_at > GROUP_GAP_NANOS
}

fn find_member_avatar(members: &Vec<MemberView>, m: &MessageView) -> (res: Option<String>)
    ensures
        match res {
            Some(a) => member_avatar(members@, *m) == Some(a@),
            None => member_avatar(members@, *m) is None,
        },
{
    let n = members.len();
    let mut j: usize = 0;
    assert(members@.skip(0) =~= members@);
    while j < n
        invariant
            n == members@.len(),
            j <= n,
            member_avatar(members@, *m) == member_avatar(members@.skip(j as int), *m),
        decreases n - j,
    {
        let mem = &members[j];
        let by_name = mem.username == m.author_name;
        let by_id = match m.author_id {
            Some(id) => id == mem.user_id,
            None => false,
        };
        assert(members@.skip(j as int)[0] == members@[j as int]);
        if by_name || by_id {
            return Some(mem.avatar.clone());
        }
        assert(members@.skip(j as int).drop_first() =~= members@.skip(j + 1));
        j = j + 1;
    }
    assert(members@.skip(n as int) =~= Seq::<MemberView>::empty());
    None
}

/// The avatar drawn beside a message.
pub fn message_avatar(
    m: &MessageView,
    members: &Vec<MemberView>,
    my_username: &String,
    my_avatar: &String,
) -> (res: String)
    ensures
        res@ == avatar_for(*m, members@, my_username@, my_avatar@),
{
    let mine = m.author_name == *my_username;
    if my_avatar.unicode_len() > 0 && mine {
        my_avatar.clone()
    } else {
        match find_member_avatar(members, m) {
            Some(a) => a,
            None => if mine { my_avatar.clone() } else { String::new() },
        }
    }
}

/// Groups the messages of a channel and attaches avatars and date dividers,
/// as the message list draws them on local day `today`.
pub fn enrich_messages(
    msgs: &Vec<MessageView>,
    members: &Vec<MemberView>,
    my_username: &String,
    my_avatar: &String,
    offset_seconds: i32,
    today: i32,
) -> (out: Vec<EnrichedMessage>)
    requires
        all_valid_instants(msgs@, offset_seconds as int),
        valid_julian_day(today as int),
        today > MIN_JULIAN_DAY,
    ensures
        enriched(out@, msgs@, members@, my_username@, my_avatar@, offset_seconds as int, today as int),
{
    let n = msgs.len();
    let ghost off = offset_seconds as int;
    let mut days: Vec<i32> = Vec::new();
    let mut k: usize = 0;
    while k < n
        invariant
            n == msgs@.len(),
            off == offset_seconds as int,
            k <= n,
            all_valid_instants(msgs@, off),
            days@.len() == k,
            forall|j: int| 0 <= j < k ==> #[trigger] days@[j] == msg_day(msgs@, off, j)
                && valid_julian_day(days@[j] as int),
        decreases n - k,
    {
        let t = msgs[k].created_at;
        assert(msgs@[k as int].created_at == t);
        assert(valid_instant(t as int, offset_seconds as int));
        let d = local_day(t, offset_seconds);
        days.push(d);
        k = k + 1;
    }
    let mut out: Vec<EnrichedMessage> = Vec::new();
    let mut i: usize = 0;
    while i < n
        invariant
            n == msgs@.len(),
            off == offset_seconds as int,
            i <= n,
            all_valid_instants(msgs@, off),
            valid_julian_day(today as int),
            today > MIN_JULIAN_DAY,
            days@.len() == n,
            forall|j: int| 0 <= j < n ==> #[trigger] days@[j] == msg_day(msgs@, off, j)
                && valid_julian_day(days@[j] as int),
            out@.len() == i,
            forall|j: int| 0 <= j < i ==> {
                let e = #[trigger] out@[j];
                &&& e.message == msgs@[j]
                &&& e.is_first == starts_group(msgs@, off, j)
                &&& e.is_last == ends_group(msgs@, off, j)
                &&& e.avatar_url@ == avatar_for(msgs@[j], members@, my_username@, my_avatar@)
                &&& divider_text_of(e) == if starts_day(msgs@, off, j) {
                    Some(date_divider_text(msg_day(msgs@, off, j), today as int))
                } else {
                    None
                }
            },
        decreases n - i,
    {
        let m = &msgs[i];
        proof {
            lemma_instant_bounds(msgs@[i as int].created_at as int, off);
            assert(days@[i as int] == msg_day(msgs@, off, i as int));
        }
        let is_first = if i == 0 {
            true
        } else {
            proof {
                lemma_instant_bounds(msgs@[i - 1].created_at as int, off);
                assert(days@[i - 1] == msg_day(msgs@, off, i - 1));
            }
            let prev = &msgs[i - 1];
            apart(prev, m, m.author_id, prev.author_id, days[i - 1], days[i])
        };
        let is_last = if i + 1 == n {
            true
        } else {
            proof {
                lemma_instant_bounds(msgs@[i + 1].created_at as int, off);
                assert(days@[i + 1] == msg_day(msgs@, off, i + 1));
            }
            let next = &msgs[i + 1];
            apart(m, next, m.author_id, next.author_id, days[i], days[i + 1])
        };
        let new_day = i == 0 || days[i - 1] != days[i];
        let date_divider = if new_day {
            Some(format_date_divider(days[i], today))
        } else {
            None
        };
        let avatar_url = message_avatar(m, members, my_username, my_avatar);
        let e = EnrichedMessage {
            message: m.clone(),
            avatar_url,
            is_first,
            is_last,
            date_divider,
        };
        out.push(e);
        i = i + 1;
    }
    out
}

/// What enriching the messages gives when the clock reads `now`: `None`
/// when a message or today's day lies outside the supported calendar range,
/// else today's day with the enrichment seen on it.
pub open spec fn enrichment_at(
    res: Option<(i32, Vec<EnrichedMessage>)>,
    msgs: Seq<MessageView>,
    members: Seq<MemberView>,
    my_username: Seq<char>,
    my_avatar: Seq<char>,
    offset: int,
    now: int,
) -> bool {
    match res {
        Some((day, out)) => all_valid_instants(msgs, offset) && today_of(now, offset) == Some(day as int)
            && enriched(out@, msgs, members, my_username, my_avatar, offset, day as int),
        None => !all_valid_instants(msgs, offset) || today_of(now, offset) is None,
    }
}

/// Enriches the messages as seen when the clock reads `now`, returning
/// today's local day with them.
pub fn enrich_messages_at(
    msgs: &Vec<MessageView>,
    members: &Vec<MemberView>,
    my_username: &String,
    my_avatar: &String,
    offset_seconds: i32,
    now: i128,
) -> (res: Option<(i32, Vec<EnrichedMessage>)>)
    ensures
        enrichment_at(res, msgs@, members@, my_username@, my_avatar@, offset_seconds as int, now as int),
{
    let n = msgs.len();
    let mut k: usize = 0;
    while k < n
        invariant
            n == msgs@.len(),
            k <= n,
            forall|j: int| 0 <= j < k ==> valid_instant((#[trigger] msgs@[j]).created_at as int, offset_seconds as int),
        decreases n - k,
    {
        if !instant_in_range(msgs[k].created_at, offset_seconds) {
            return None;
        }
        k = k + 1;
    }
    match today_at(now, offset_seconds) {
        None => None,
        Some(t) => {
            let out = enrich_messages(msgs, members, my_username, my_avatar, offset_seconds, t);
            Some((t, out))
        },
    }
}

/// Enriches the messages as seen now on the local clock, returning today's
/// local day with them; `None` when a message or the current time lies
/// outside the supported calendar range. Which instant the clock reads is not
/// stated; the result is what `enrich_messages_at` gives for some reading the
/// calendar supports.
pub fn enrich_messages_now(
    msgs: &Vec<MessageView>,
    members: &Vec<MemberView>,
    my_username: &String,
    my_avatar: &String,
    offset_seconds: i32,
) -> (res: Option<(i32, Vec<EnrichedMessage>)>)
    ensures
        exists|now: int| valid_instant(now, 0) && #[trigger] enrichment_at(
            res,
            msgs@,
            members@,
            my_username@,
            my_avatar@,
            offset_seconds as int,
            now,
        ),
        !all_valid_instants(msgs@, offset_seconds as int) ==> res is None,
        !valid_offset(offset_seconds as int) ==> res is None,
{
    let now = now_unix_nanos();
    let res = enrich_messages_at(msgs, members, my_username, my_avatar, offset_seconds, now);
    assert(enrichment_at(res, msgs@, members@, my_username@, my_avatar@, offset_seconds as int, now as int));
    res
}

/// The first message of a non-empty list opens a group and the last one
/// closes one.
pub proof fn law_list_ends_bound_groups(msgs: Seq<MessageView>, offset: int)
    requires
        msgs.len() > 0,
    ensures
        starts_group(msgs, offset, 0),
        ends_group(msgs, offset, msgs.len() - 1),
        starts_day(msgs, offset, 0),
{
}

/// A group boundary looks the same from both sides: a message closes a group
/// exactly when the next one opens one, provided both carry an author id or
/// neither does.
pub proof fn law_group_boundary_agrees(msgs: Seq<MessageView>, offset: int, i: int)
    requires
        0 <= i,
        i + 1 < msgs.len(),
        (msgs[i].author_id is Some) == (msgs[i + 1].author_id is Some),
    ensures
        ends_group(msgs, offset, i) == starts_group(msgs, offset, i + 1),
{
}

/// In an enriched list the flags cut the messages into groups: the first
/// entry opens a group, the last one closes one, and where two neighbouring
/// messages both carry an author id or neither does, an entry closes a group
/// exactly when the next one opens one.
pub proof fn law_enriched_flags_cut_groups(
    out: Seq<EnrichedMessage>,
    msgs: Seq<MessageView>,
    members: Seq<MemberView>,
    my_username: Seq<char>,
    my_avatar: Seq<char>,
    offset: int,
    today: int,
)
    requires
        enriched(out, msgs, members, my_username, my_avatar, offset, today),
    ensures
        msgs.len() > 0 ==> out[0].is_first && out[out.len() - 1].is_last,
        forall|i: int|
            0 <= i && i + 1 < msgs.len() && (msgs[i].author_id is Some) == (msgs[i + 1].author_id is Some)
                ==> (#[trigger] out[i]).is_last == out[i + 1].is_first,
{
    if msgs.len() > 0 {
        assert(out[0].is_first == starts_group(msgs, offset, 0));
        assert(out[out.len() - 1].is_last == ends_group(msgs, offset, msgs.len() - 1));
    }
    assert forall|i: int|
        0 <= i && i + 1 < msgs.len() && (msgs[i].author_id is Some) == (msgs[i + 1].author_id is Some)
            implies (#[trigger] out[i]).is_last == out[i + 1].is_first by {
        assert(out[i].is_last == ends_group(msgs, offset, i));
        assert(out[i + 1].is_first == starts_group(msgs, offset, i + 1));
        law_group_boundary_agrees(msgs, offset, i);
    }
}

/// Neighbouring messages share a group only when they are close: where the
/// authors' names differ, the local days differ, or more than five minutes
/// lie between them, the later message opens a group and the earlier one
/// closes one. Messages of one author (same name and same author id) on one
/// local day at most five minutes apart always share a group.
pub proof fn law_neighbours_grouped_by_author_day_and_time(
    out: Seq<EnrichedMessage>,
    msgs: Seq<MessageView>,
    members: Seq<MemberView>,
    my_username: Seq<char>,
    my_avatar: Seq<char>,
    offset: int,
    today: int,
)
    requires
        enriched(out, msgs, members, my_username, my_avatar, offset, today),
    ensures
        forall|i: int|
            #![trigger out[i]]
            0 < i < msgs.len() && (msgs[i - 1].author_name@ != msgs[i].author_name@ || day_of(
                msgs[i - 1].created_at as int,
                offset,
            ) != day_of(msgs[i].created_at as int, offset) || msgs[i].created_at - msgs[i - 1].created_at > 5
                * 60 * 1_000_000_000) ==> out[i].is_first && out[i - 1].is_last,
        forall|i: int|
            #![trigger out[i]]
            0 < i < msgs.len() && msgs[i - 1].author_name@ == msgs[i].author_name@ && msgs[i - 1].author_id
                == msgs[i].author_id && day_of(msgs[i - 1].created_at as int, offset) == day_of(
                msgs[i].created_at as int,
                offset,
            ) && msgs[i].created_at - msgs[i - 1].created_at <= 5 * 60 * 1_000_000_000 ==> !out[i].is_first
                && !out[i - 1].is_last,
{
    assert forall|i: int|
        #![trigger out[i]]
        0 < i < msgs.len() implies out[i].is_first == starts_group(msgs, offset, i) && out[i - 1].is_last
            == ends_group(msgs, offset, i - 1) by {
        assert(out[i - 1].is_last == ends_group(msgs, offset, i - 1));
    }
}

proof fn lemma_member_avatar_first_match(members: Seq<MemberView>, m: MessageView)
    ensures
        forall|k: int|
            0 <= k < members.len() && member_matches(members[k], m) && (forall|j: int|
                0 <= j < k ==> !member_matches(#[trigger] members[j], m)) ==> member_avatar(members, m) == Some(
                #[trigger] members[k].avatar@,
            ),
        (forall|j: int| 0 <= j < members.len() ==> !member_matches(#[trigger] members[j], m)) ==> member_avatar(
            members,
            m,
        ) is None,
    decreases members.len(),
{
    if members.len() > 0 {
        let rest = members.drop_first();
        lemma_member_avatar_first_match(rest, m);
        assert forall|k: int|
            0 <= k < members.len() && member_matches(members[k], m) && (forall|j: int|
                0 <= j < k ==> !member_matches(#[trigger] members[j], m)) implies member_avatar(members, m) == Some(
            #[trigger] members[k].avatar@,
        ) by {
            if k > 0 {
                assert(!member_matches(members[0], m));
                assert(rest[k - 1] == members[k]);
                assert forall|j: int| 0 <= j < k - 1 implies !member_matches(#[trigger] rest[j], m) by {
                    assert(rest[j] == members[j + 1]);
                }
            }
        }
        if forall|j: int| 0 <= j < members.len() ==> !member_matches(#[trigger] members[j], m) {
            assert(!member_matches(members[0], m));
            assert forall|j: int| 0 <= j < rest.len() implies !member_matches(#[trigger] rest[j], m) by {
                assert(rest[j] == members[j + 1]);
            }
        }
    }
}

/// Whose picture a message shows: the user's own avatar on their own
/// messages when they have one; otherwise the avatar of the first member
/// whose name is the author's name or whose id is the author id the message
/// carries; otherwise, on their own messages, the user's (empty) avatar, and
/// no picture on anyone else's.
pub proof fn law_avatar_of_the_author(
    m: MessageView,
    members: Seq<MemberView>,
    my_username: Seq<char>,
    my_avatar: Seq<char>,
    k: int,
)
    ensures
        my_avatar.len() > 0 && m.author_name@ == my_username ==> avatar_for(m, members, my_username, my_avatar)
            == my_avatar,
        !(my_avatar.len() > 0 && m.author_name@ == my_username) && 0 <= k < members.len() && (members[k].username@
            == m.author_name@ || m.author_id == Some(members[k].user_id)) && (forall|j: int|
            0 <= j < k ==> #[trigger] members[j].username@ != m.author_name@ && m.author_id != Some(
                members[j].user_id,
            )) ==> avatar_for(m, members, my_username, my_avatar) == members[k].avatar@,
        (forall|j: int|
            0 <= j < members.len() ==> #[trigger] members[j].username@ != m.author_name@ && m.author_id != Some(
                members[j].user_id,
            )) ==> avatar_for(m, members, my_username, my_avatar) == (if m.author_name@ == my_username {
            my_avatar
        } else {
            Seq::<char>::empty()
        }),
{
    lemma_member_avatar_first_match(members, m);
    if 0 <= k < members.len() && (members[k].username@ == m.author_name@ || m.author_id == Some(members[k].user_id))
        && (forall|j: int|
        0 <= j < k ==> #[trigger] members[j].username@ != m.author_name@ && m.author_id != Some(members[j].user_id)) {
        assert(member_matches(members[k], m));
        assert forall|j: int| 0 <= j < k implies !member_matches(#[trigger] members[j], m) by {
            assert(members[j].username@ != m.author_name@ && m.author_id != Some(members[j].user_id));
        }
    }
    if forall|j: int|
        0 <= j < members.len() ==> #[trigger] members[j].username@ != m.author_name@ && m.author_id != Some(
            members[j].user_id,
        ) {
        assert forall|j: int| 0 <= j < members.len() implies !member_matches(#[trigger] members[j], m) by {
            assert(members[j].username@ != m.author_name@ && m.author_id != Some(members[j].user_id));
        }
    }
}

/// A date divider always opens a new group.
pub proof fn law_new_day_starts_group(msgs: Seq<MessageView>, offset: int, i: int)
    requires
        0 <= i < msgs.len(),
        starts_day(msgs, offset, i),
    ensures
        starts_group(msgs, offset, i),
{
}

/// A message arrived on the live channel: it goes to the end of the list.
pub fn apply_new_message(list: &mut Vec<MessageView>, msg: MessageView)
    ensures
        final(list)@ == old(list)@.push(msg),
{
    list.push(msg);
}

/// Older history arrived (newest first): each message is put in front of the
/// list in turn, so the batch ends up reversed before the loaded messages.
#[verifier::rlimit(30)]
pub fn apply_history_before(list: &mut Vec<MessageView>, payload: Vec<MessageView>)
    ensures
        final(list)@ == payload@.reverse() + old(list)@,
{
    let n = payload.len();
    let mut i: usize = 0;
    while i < n
        invariant
            n == payload@.len(),
            i <= n,
            list@ == payload@.take(i as int).reverse() + old(list)@,
        decreases n - i,
    {
        let msg = payload[i].clone();
        list.insert(0, msg);
        assert(payload@.take(i + 1) =~= payload@.take(i as int).push(payload@[i as int]));
        assert(payload@.take(i as int).push(payload@[i as int]).reverse()
            =~= seq![payload@[i as int]] + payload@.take(i as int).reverse());
        i = i + 1;
    }
    assert(payload@.take(n as int) =~= payload@);
}

/// Newer history arrived (oldest first): it is appended to the list.
pub fn apply_history_after(list: &mut Vec<MessageView>, payload: Vec<MessageView>)
    ensures
        final(list)@ == old(list)@ + payload@,
{
    let mut payload = payload;
    list.append(&mut payload);
}

} // verus!
