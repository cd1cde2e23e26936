//! The home screen: which panels are shown, the dialogs of the interface,
//! the direct-message list and the "home" button.

use vstd::prelude::*;
use crate::channels::ChannelType;
use crate::navigation::HomeTab;
use crate::text::{decimal, push_decimal, trimmed, trim_str};

verus! {

/// Open dialogs and selections of the home screen.
pub struct UiState {
    pub is_server_settings_open: bool,
    pub is_create_channel_open: bool,
    pub create_channel_type: ChannelType,
    pub is_profile_settings_open: bool,
    /// Name of the open direct conversation.
    pub selected_dm_name: Option<String>,
    pub home_tab: HomeTab,
}

impl UiState {
    /// Everything closed, chats tab, text channels by default.
    pub fn new() -> (res: Self)
        ensures
            !res.is_server_settings_open,
            !res.is_create_channel_open,
            res.create_channel_type == ChannelType::TEXT,
            !res.is_profile_settings_open,
            res.selected_dm_name is None,
            res.home_tab == HomeTab::Chats,
    {
        UiState {
            is_server_settings_open: false,
            is_create_channel_open: false,
            create_channel_type: ChannelType::TEXT,
            is_profile_settings_open: false,
            selected_dm_name: None,
            home_tab: HomeTab::Chats,
        }
    }

    /// A `+` of the channel panel opens the dialog for that kind.
    pub fn open_create_channel(&mut self, kind: ChannelType)
        ensures
            final(self).is_create_channel_open,
            final(self).create_channel_type == kind,
            final(self).is_server_settings_open == old(self).is_server_settings_open,
            final(self).is_profile_settings_open == old(self).is_profile_settings_open,
            final(self).selected_dm_name == old(self).selected_dm_name,
            final(self).home_tab == old(self).home_tab,
    {
        self.create_channel_type = kind;
        self.is_create_channel_open = true;
    }

    /// "Friends" in the home navigation: the dashboard, no conversation.
    pub fn show_friends(&mut self)
        ensures
            *final(self) == (UiState { selected_dm_name: None, home_tab: HomeTab::Dashboard, ..*old(self) }),
    {
        self.selected_dm_name = None;
        self.home_tab = HomeTab::Dashboard;
    }

    /// Opens the direct conversation with `name`.
    pub fn select_dm(&mut self, name: String)
        ensures
            *final(self) == (UiState { selected_dm_name: Some(name), ..*old(self) }),
    {
        self.selected_dm_name = Some(name);
    }

    /// Whether the home navigation item of conversation `name` is highlighted.
    pub fn is_dm_active(&self, name: &String) -> (res: bool)
        ensures
            res == match self.selected_dm_name {
                Some(s) => s@ == name@,
                None => false,
            },
    {
        match &self.selected_dm_name {
            Some(s) => *s == *name,
            None => false,
        }
    }

    /// Whether "Friends" is highlighted: the dashboard with no conversation.
    pub fn is_friends_active(&self) -> (res: bool)
        ensures
            res == (self.selected_dm_name is None && self.home_tab == HomeTab::Dashboard),
    {
        self.selected_dm_name.is_none() && self.home_tab == HomeTab::Dashboard
    }
}

/// Class of the main area: inside a server, or the home chats or dashboard.
pub fn content_class(in_server: bool, tab: HomeTab) -> (res: &'static str)
    ensures
        in_server ==> res@ == "discord-content in-server"@,
        !in_server && tab == HomeTab::Chats ==> res@ == "discord-content in-home show-chats"@,
        !in_server && tab == HomeTab::Dashboard ==> res@ == "discord-content in-home show-dashboard"@,
{
    if in_server {
        "discord-content in-server"
    } else {
        match tab {
            HomeTab::Chats => "discord-content in-home show-chats",
            HomeTab::Dashboard => "discord-content in-home show-dashboard",
        }
    }
}

/// Classes of the "home" button and its pill: active when no server is open.
pub fn home_button_classes(in_server: bool) -> (res: (&'static str, &'static str))
    ensures
        !in_server ==> res.0@ == "home-pill active"@ && res.1@ == "home-avatar-btn active"@,
        in_server ==> res.0@ == "home-pill"@ && res.1@ == "home-avatar-btn"@,
{
    if !in_server {
        ("home-pill active", "home-avatar-btn active")
    } else {
        ("home-pill", "home-avatar-btn")
    }
}

/// What the "home" button does.
pub struct HomeClick {
    /// Channel to leave (`LeftChannel` is sent for it).
    pub leave_channel: Option<u128>,
}

/// The "home" button leaves the open channel, closes it and the open server,
/// and closes any direct conversation.
pub fn go_home(ui: &mut UiState, current_channel: Option<u128>) -> (res: HomeClick)
    ensures
        res.leave_channel == current_channel,
        *final(ui) == (UiState { selected_dm_name: None, ..*old(ui) }),
{
    ui.selected_dm_name = None;
    HomeClick { leave_channel: current_channel }
}

/// A direct-message contact of the home navigation.
pub struct DmContact {
    pub id: &'static str,
    pub name: &'static str,
    pub avatar: &'static str,
    /// "online", "idle", "dnd" or "offline".
    pub status: &'static str,
    pub activity: &'static str,
    pub unread: u64,
}

/// A group conversation of the home navigation.
pub struct GroupChat {
    pub id: &'static str,
    pub name: &'static str,
    pub icon_letter: &'static str,
    pub members_count: u64,
}

/// Class of a contact's status dot.
pub fn status_class(status: &str) -> (res: String)
    ensures
        res@ == "status-dot "@ + status@,
{
    let mut res = String::from_str("status-dot ");
    res.append(status);
    res
}

/// Class of a conversation entry, highlighted when it is open.
pub fn dm_item_class(is_active: bool) -> (res: &'static str)
    ensures
        is_active ==> res@ == "dm-item active"@,
        !is_active ==> res@ == "dm-item"@,
{
    if is_active { "dm-item active" } else { "dm-item" }
}

/// The unread badge: the count, shown only when there is something unread.
pub fn unread_badge(unread: u64) -> (res: Option<String>)
    ensures
        unread == 0 ==> res is None,
        unread > 0 ==> (res matches Some(s) && s@ == decimal(unread as nat)),
{
    if unread > 0 {
        let mut s = String::new();
        push_decimal(&mut s, unread);
        Some(s)
    } else {
        None
    }
}

/// The line under a direct conversation's title.
pub fn dm_start_text(name: &str) -> (res: String)
    ensures
        res@ == "Это начало вашей истории личных сообщений с "@ + name@,
{
    let mut res = String::from_str("Это начало вашей истории личных сообщений с ");
    res.append(name);
    res
}

/// Sending in a direct conversation clears the input unless it is blank.
pub fn dm_input_after_send(text: &String) -> (res: String)
    ensures
        trimmed(text@).len() > 0 ==> res@.len() == 0,
        trimmed(text@).len() == 0 ==> res@ == text@,
{
    if !trim_str(text.as_str()).is_empty() {
        String::new()
    } else {
        text.clone()
    }
}

/// The contacts listed in the home navigation.
pub fn demo_contacts() -> (res: Vec<DmContact>)
    ensures
        res@.len() == 5,
        res@[0].unread == 2,
        forall|k: int| 1 <= k < 5 ==> (#[trigger] res@[k]).unread == 0,
{
    vec![
        DmContact {
            id: "dm-1",
            name: "Алексей Смирнов",
            avatar: "https://images.unsplash.com/photo-1534528741775-53994a69daeb?w=100",
            status: "online",
            activity: "Кодит на Rust 🦀",
            unread: 2,
        },
        DmContact {
            id: "dm-2",
            name: "Елена Васильева",
            avatar: "https://images.unsplash.com/photo-1494790108377-be9c29b29330?w=100",
            status: "online",
            activity: "В сети",
            unread: 0,
        },
        DmContact {
            id: "dm-3",
            name: "Gilvave Bot",
            avatar: "https://images.unsplash.com/photo-1618005182384-a83a8bd57fbe?w=100",
            status: "online",
            activity: "Бот • v0.2.0",
            unread: 0,
        },
        DmContact {
            id: "dm-4",
            name: "Анна Морозова",
            avatar: "https://images.unsplash.com/photo-1438761681033-6461ffad8d80?w=100",
            status: "idle",
            activity: "Не на месте",
            unread: 0,
        },
        DmContact {
            id: "dm-5",
            name: "Михаил Ковалёв",
            avatar: "https://images.unsplash.com/photo-1507003211169-0a1dd7228f2d?w=100",
            status: "offline",
            activity: "Был 2 часа назад",
            unread: 0,
        },
    ]
}

/// The group conversations listed in the home navigation.
pub fn demo_groups() -> (res: Vec<GroupChat>)
    ensures
        res@.len() == 2,
        res@[0].members_count == 4,
        res@[1].members_count == 6,
{
    vec![
        GroupChat { id: "grp-1", name: "🚀 Команда Gilvave", icon_letter: "G", members_count: 4 },
        GroupChat { id: "grp-2", name: "🎮 Пятничный кооп", icon_letter: "C", members_count: 6 },
    ]
}

} // verus!
