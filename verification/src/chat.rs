//! Decisions of the channel view around the message list: how one message is
//! laid out, what the input box sends, and what scrolling asks for.

use vstd::prelude::*;
use crate::calendar::{now_unix_nanos, valid_instant};
use crate::messages::MessageView;
use crate::text::{char_uppercase, first_or_question, initial_of, trim_str, trimmed};

verus! {

/// What stands left of a message bubble.
pub enum MessageAvatar {
    /// The author's picture.
    Image(String),
    /// The author's initial, when no picture is known.
    Initial(String),
    /// Empty space, for a message that continues a group.
    Spacer,
}

/// How one message is drawn.
pub struct MessageLayout {
    pub class_list: String,
    pub avatar: MessageAvatar,
    /// Author and time above the bubble (first message of a group).
    pub show_header: bool,
    /// Time inside the bubble (later messages of a group).
    pub show_chained_time: bool,
}

/// CSS classes of a message: `message`, then `chained` for a continuation,
/// `group-first` for the first of a group, `group-last` for the last.
pub open spec fn message_class_text(is_first: bool, is_last: bool) -> Seq<char> {
    "message"@
        + (if !is_first { " chained"@ } else { Seq::empty() })
        + (if is_first { " group-first"@ } else { Seq::empty() })
        + (if is_last { " group-last"@ } else { Seq::empty() })
}

/// Lays out a message of `author_name` with the avatar chosen for it.
pub fn message_layout(author_name: &str, avatar_url: &String, is_first: bool, is_last: bool) -> (res:
    MessageLayout)
    ensures
        res.class_list@ == message_class_text(is_first, is_last),
        res.show_header == is_first,
        res.show_chained_time == !is_first,
        is_first && avatar_url@.len() > 0 ==> res.avatar == MessageAvatar::Image(*avatar_url),
        is_first && avatar_url@.len() == 0 ==> (res.avatar matches MessageAvatar::Initial(s)
            && s@ == char_uppercase(first_or_question(author_name@))),
        !is_first ==> res.avatar is Spacer,
{
    let mut class_list = String::from_str("message");
    if !is_first {
        class_list.append(" chained");
    }
    if is_first {
        class_list.append(" group-first");
    }
    if is_last {
        class_list.append(" group-last");
    }
    let avatar = if is_first {
        if avatar_url.unicode_len() > 0 {
            MessageAvatar::Image(avatar_url.clone())
        } else {
            MessageAvatar::Initial(initial_of(author_name))
        }
    } else {
        MessageAvatar::Spacer
    };
    MessageLayout { class_list, avatar, show_header: is_first, show_chained_time: !is_first }
}

/// A message the user asked to send.
pub struct OutgoingMessage {
    pub channel_id: u128,
    pub content: String,
}

/// What the input box sends on submit: the trimmed text to the open channel;
/// nothing when the text is blank or no channel is open.
pub fn compose_outgoing(text: &str, current_channel: Option<u128>) -> (res: Option<OutgoingMessage>)
    ensures
        match res {
            Some(o) => current_channel == Some(o.channel_id) && o.content@ == trimmed(text@)
                && trimmed(text@).len() > 0,
            None => trimmed(text@).len() == 0 || current_channel is None,
        },
{
    let msg = trim_str(text);
    if msg.is_empty() {
        return None;
    }
    match current_channel {
        Some(channel_id) => Some(OutgoingMessage { channel_id, content: String::from_str(msg) }),
        None => None,
    }
}

/// Where the scroll position of the message list stands.
pub struct ScrollEdges {
    pub at_top: bool,
    pub at_bottom: bool,
}

/// The list is at its top when nothing is scrolled off above, and at its
/// bottom when at most one pixel is left below.
pub fn scroll_edges(scroll_top: i32, scroll_height: i32, client_height: i32) -> (res: ScrollEdges)
    ensures
        res.at_top == (scroll_top <= 0),
        res.at_bottom == (-1 <= scroll_height - client_height - scroll_top <= 1),
{
    let rest: i64 = scroll_height as i64 - client_height as i64 - scroll_top as i64;
    ScrollEdges { at_top: scroll_top <= 0, at_bottom: -1 <= rest && rest <= 1 }
}

/// The scroll position that keeps the visible messages in place after the
/// content grew from `old_height` to `new_height`.
pub fn anchored_scroll_top(old_top: i32, old_height: i32, new_height: i32) -> (res: i64)
    ensures
        res == old_top + (new_height - old_height),
{
    old_top as i64 + (new_height as i64 - old_height as i64)
}

/// A request for history around a timestamp.
pub struct HistoryQuery {
    pub channel_id: u128,
    pub timestamp: i128,
}

/// Reaching the top asks for the messages before the oldest one loaded.
pub fn history_before_query(channel_id: u128, msgs: &Vec<MessageView>) -> (res: HistoryQuery)
    requires
        msgs@.len() > 0,
    ensures
        res.channel_id == channel_id,
        res.timestamp == msgs@[0].created_at,
{
    HistoryQuery { channel_id, timestamp: msgs[0].created_at }
}

/// Reaching the bottom asks for the messages after the newest one loaded.
pub fn history_after_query(channel_id: u128, msgs: &Vec<MessageView>) -> (res: HistoryQuery)
    requires
        msgs@.len() > 0,
    ensures
        res.channel_id == channel_id,
        res.timestamp == msgs@[msgs@.len() - 1].created_at,
{
    HistoryQuery { channel_id, timestamp: msgs[msgs.len() - 1].created_at }
}

/// The request for a channel's history around the instant `now`.
pub fn history_query_at(channel_id: u128, now: i128) -> (res: HistoryQuery)
    ensures
        res.channel_id == channel_id,
        res.timestamp == now,
{
    HistoryQuery { channel_id, timestamp: now }
}

/// Joining a channel asks for its history before the current time: the
/// query `history_query_at` makes for the clock's reading, which lies in the
/// range the calendar supports (which instant it is is not stated).
pub fn history_before_now(channel_id: u128) -> (res: HistoryQuery)
    ensures
        res.channel_id == channel_id,
        valid_instant(res.timestamp as int, 0),
{
    let now = now_unix_nanos();
    history_query_at(channel_id, now)
}

/// Title of the open channel, `<UNKNOWN>` when none is open.
pub fn channel_title(current_name: Option<&String>) -> (res: String)
    ensures
        match current_name {
            Some(n) => res@ == n@,
            None => res@ == "<UNKNOWN>"@,
        },
{
    match current_name {
        Some(n) => n.clone(),
        None => String::from_str("<UNKNOWN>"),
    }
}

/// Greeting at the top of a channel.
pub fn welcome_text(channel_name: &str) -> (res: String)
    ensures
        res@ == "Добро пожаловать на канал "@ + channel_name@ + "!"@,
{
    let mut res = String::from_str("Добро пожаловать на канал ");
    res.append(channel_name);
    res.append("!");
    res
}

} // verus!
