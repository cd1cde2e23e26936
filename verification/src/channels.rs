//! Channels of a server: sorting them by kind, naming new ones, and what a
//! click on a channel asks the gateway to do.

use vstd::prelude::*;
use crate::messages::MessageView;
use crate::text::{lowercase, push_char, to_lowercase_string, trim_str, trimmed};

verus! {

/// Kind of a channel.
#[derive(Clone, Copy, PartialEq, Eq, Structural, Debug)]
#[allow(non_camel_case_types)]
pub enum ChannelType {
    TEXT,
    VOICE,
}

/// A channel as listed by the server.
pub struct ChannelView {
    pub id: u128,
    pub name: String,
    pub kind: ChannelType,
    pub position: i32,
}

impl Clone for ChannelView {
    fn clone(&self) -> (res: Self)
        ensures
            res == *self,
    {
        ChannelView { id: self.id, name: self.name.clone(), kind: self.kind, position: self.position }
    }
}

pub open spec fn is_text(c: ChannelView) -> bool {
    c.kind == ChannelType::TEXT
}

pub open spec fn is_voice(c: ChannelView) -> bool {
    c.kind == ChannelType::VOICE
}

/// Sorts the channels of a server into the text list and the voice list,
/// each in the server's order.
pub fn split_channels(channels: Vec<ChannelView>) -> (res: (Vec<ChannelView>, Vec<ChannelView>))
    ensures
        res.0@ == channels@.filter(|c: ChannelView| is_text(c)),
        res.1@ == channels@.filter(|c: ChannelView| is_voice(c)),
{
    let mut text: Vec<ChannelView> = Vec::new();
    let mut voice: Vec<ChannelView> = Vec::new();
    let n = channels.len();
    let mut i: usize = 0;
    while i < n
        invariant
            n == channels@.len(),
            i <= n,
            text@ == channels@.take(i as int).filter(|c: ChannelView| is_text(c)),
            voice@ == channels@.take(i as int).filter(|c: ChannelView| is_voice(c)),
        decreases n - i,
    {
        reveal_with_fuel(Seq::<_>::filter, 1);
        assert(channels@.take(i + 1).drop_last() =~= channels@.take(i as int));
        let channel = channels[i].clone();
        match channel.kind {
            ChannelType::TEXT => text.push(channel),
            ChannelType::VOICE => voice.push(channel),
        }
        i = i + 1;
    }
    assert(channels@.take(n as int) =~= channels@);
    (text, voice)
}

/// Every channel lands in exactly one of the two lists.
pub proof fn law_split_keeps_every_channel(channels: Seq<ChannelView>)
    ensures
        channels.filter(|c: ChannelView| is_text(c)).len() + channels.filter(|c: ChannelView| is_voice(c)).len()
            == channels.len(),
    decreases channels.len(),
{
    reveal_with_fuel(Seq::<_>::filter, 1);
    if channels.len() > 0 {
        law_split_keeps_every_channel(channels.drop_last());
    }
}

/// `s` with every space replaced by `-`.
pub open spec fn dashed(s: Seq<char>) -> Seq<char> {
    s.map_values(|c: char| if c == ' ' { '-' } else { c })
}

/// The name a new channel gets from what was typed: trimmed, lower-cased,
/// spaces replaced by dashes.
pub open spec fn channel_name_from(raw: Seq<char>) -> Seq<char> {
    dashed(lowercase(trimmed(raw)))
}

/// Normalizes a typed channel name; `None` when nothing is left.
pub fn normalize_channel_name(raw: &str) -> (res: Option<String>)
    ensures
        match res {
            Some(name) => name@ == channel_name_from(raw@) && name@.len() > 0,
            None => channel_name_from(raw@).len() == 0,
        },
{
    let lower = to_lowercase_string(trim_str(raw));
    channel_name_from_lowercase(lower.as_str())
}

/// The channel name made of an already trimmed and lower-cased text:
/// spaces become dashes; `None` when the text is empty.
pub fn channel_name_from_lowercase(lower: &str) -> (res: Option<String>)
    ensures
        match res {
            Some(name) => name@ == dashed(lower@) && name@.len() > 0,
            None => dashed(lower@).len() == 0,
        },
{
    let n = lower.unicode_len();
    let mut name = String::new();
    let mut i: usize = 0;
    while i < n
        invariant
            n == lower@.len(),
            i <= n,
            name@ == dashed(lower@.take(i as int)),
        decreases n - i,
    {
        let c = lower.get_char(i);
        push_char(&mut name, if c == ' ' { '-' } else { c });
        assert(dashed(lower@.take(i + 1)) =~= dashed(lower@.take(i as int)).push(if c == ' ' { '-' } else { c }));
        i = i + 1;
    }
    assert(lower@.take(n as int) =~= lower@);
    if name.unicode_len() == 0 {
        None
    } else {
        Some(name)
    }
}

/// A normalized channel name holds no space.
pub proof fn law_channel_name_has_no_space(raw: Seq<char>)
    ensures
        forall|k: int| 0 <= k < channel_name_from(raw).len() ==> #[trigger] channel_name_from(raw)[k] != ' ',
{
}

/// The channels of the open server, the open channel and its messages.
pub struct ChannelState {
    pub current: Option<ChannelView>,
    pub text: Vec<ChannelView>,
    pub voice: Vec<ChannelView>,
    pub messages: Vec<MessageView>,
}

/// A channel created from the dialog before the server knows it: nil id,
/// position 0.
pub open spec fn new_channel(c: ChannelView, name: Seq<char>, kind: ChannelType) -> bool {
    c.id == 0 && c.name@ == name && c.kind == kind && c.position == 0
}

impl ChannelState {
    /// No server open.
    pub fn new() -> (res: Self)
        ensures
            res.current is None,
            res.text@.len() == 0,
            res.voice@.len() == 0,
            res.messages@.len() == 0,
    {
        ChannelState { current: None, text: Vec::new(), voice: Vec::new(), messages: Vec::new() }
    }

    /// "Create channel": a text channel is added and opened, a voice channel
    /// is added; nothing happens (and `false` is returned) when the name is
    /// blank.
    pub fn create_channel(&mut self, raw_name: &str, kind: ChannelType) -> (created: bool)
        ensures
            created == (channel_name_from(raw_name@).len() > 0),
            !created ==> *final(self) == *old(self),
            created && kind == ChannelType::TEXT ==> {
                &&& final(self).text@.len() == old(self).text@.len() + 1
                &&& final(self).text@.drop_last() == old(self).text@
                &&& new_channel(final(self).text@.last(), channel_name_from(raw_name@), kind)
                &&& final(self).current == Some(final(self).text@.last())
                &&& final(self).voice == old(self).voice
            },
            created && kind == ChannelType::VOICE ==> {
                &&& final(self).voice@.len() == old(self).voice@.len() + 1
                &&& final(self).voice@.drop_last() == old(self).voice@
                &&& new_channel(final(self).voice@.last(), channel_name_from(raw_name@), kind)
                &&& final(self).current == old(self).current
                &&& final(self).text == old(self).text
            },
            final(self).messages == old(self).messages,
    {
        match normalize_channel_name(raw_name) {
            None => false,
            Some(name) => {
                let channel = ChannelView { id: 0, name, kind, position: 0 };
                match kind {
                    ChannelType::TEXT => {
                        self.text.push(channel.clone());
                        self.current = Some(channel);
                    },
                    ChannelType::VOICE => {
                        self.voice.push(channel);
                    },
                }
                true
            },
        }
    }

    /// The open server changed: the open channel is left (its id is returned
    /// for the `LeftChannel` command) and closed; without a server the lists
    /// and messages are cleared too.
    pub fn server_changed(&mut self, server_open: bool) -> (left: Option<u128>)
        ensures
            left == match old(self).current {
                Some(c) => Some(c.id),
                None => None::<u128>,
            },
            final(self).current is None,
            !server_open ==> final(self).text@.len() == 0 && final(self).voice@.len() == 0
                && final(self).messages@.len() == 0,
            server_open ==> final(self).text == old(self).text && final(self).voice == old(self).voice
                && final(self).messages == old(self).messages,
    {
        let left = match &self.current {
            Some(c) => Some(c.id),
            None => None,
        };
        self.current = None;
        if !server_open {
            self.messages = Vec::new();
            self.text = Vec::new();
            self.voice = Vec::new();
        }
        left
    }

    /// The channels of the newly opened server arrived.
    pub fn channels_loaded(&mut self, channels: Vec<ChannelView>)
        ensures
            final(self).text@ == channels@.filter(|c: ChannelView| is_text(c)),
            final(self).voice@ == channels@.filter(|c: ChannelView| is_voice(c)),
            final(self).current == old(self).current,
            final(self).messages == old(self).messages,
    {
        let (text, voice) = split_channels(channels);
        self.text = text;
        self.voice = voice;
    }
}

/// What a click on a text channel sends to the gateway.
pub struct ChannelClick {
    /// Channel to leave first (it is also closed and its messages cleared).
    pub leave: Option<u128>,
    /// Channel to join, after which its history before now is requested.
    pub join: Option<u128>,
}

/// A click on the open channel does nothing; otherwise the open channel, if
/// any, is left and the clicked one joined.
pub fn plan_channel_click(current: Option<u128>, clicked: u128) -> (res: ChannelClick)
    ensures
        current == Some(clicked) ==> res.leave is None && res.join is None,
        current != Some(clicked) ==> res.leave == current && res.join == Some(clicked),
{
    match current {
        Some(c) => if c == clicked {
            ChannelClick { leave: None, join: None }
        } else {
            ChannelClick { leave: Some(c), join: Some(clicked) }
        },
        None => ChannelClick { leave: None, join: Some(clicked) },
    }
}

} // verus!
