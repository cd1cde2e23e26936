//! Servers: the catalogue cards, the server list in the sidebar, the
//! settings dialog, selecting a server, and the create/join dialog.

use vstd::prelude::*;
use crate::messages::MemberView;
use crate::text::{decimal, push_decimal, trim_str, trimmed};

verus! {

/// A server with its details.
pub struct Server {
    pub id: u128,
    pub owner_id: u128,
    pub name: String,
    pub description: String,
    pub icon_url: String,
    pub cover: String,
    pub is_public: bool,
    pub members_count: u64,
    /// Unix timestamp in nanoseconds.
    pub created_at: i128,
}

impl Clone for Server {
    fn clone(&self) -> (res: Self)
        ensures
            res == *self,
    {
        Server {
            id: self.id,
            owner_id: self.owner_id,
            name: self.name.clone(),
            description: self.description.clone(),
            icon_url: self.icon_url.clone(),
            cover: self.cover.clone(),
            is_public: self.is_public,
            members_count: self.members_count,
            created_at: self.created_at,
        }
    }
}

/// What the sidebar keeps of a server the user belongs to.
pub struct ServerSmallPart {
    pub id: u128,
    pub name: String,
    pub icon_url: String,
}

/// What is sent to create a server.
pub struct ServerCreateInfo {
    pub name: String,
    pub is_public: bool,
}

/// The sidebar entry of a server.
pub fn small_part_of(server: &Server) -> (res: ServerSmallPart)
    ensures
        res.id == server.id,
        res.name@ == server.name@,
        res.icon_url@ == server.icon_url@,
{
    ServerSmallPart { id: server.id, name: server.name.clone(), icon_url: server.icon_url.clone() }
}

/// Number of characters of a description shown on a collapsed card.
pub const SHORT_DESCRIPTION_CHARS: usize = 60;

/// The description on a collapsed card: the first 60 characters, followed
/// by `...` when something was cut.
pub open spec fn short_description_text(description: Seq<char>) -> Seq<char> {
    if description.len() > SHORT_DESCRIPTION_CHARS {
        description.take(SHORT_DESCRIPTION_CHARS as int) + "..."@
    } else {
        description
    }
}

/// Shortens a description for a collapsed card.
pub fn short_description(description: &str) -> (res: String)
    ensures
        res@ == short_description_text(description@),
{
    let len = description.unicode_len();
    if len > SHORT_DESCRIPTION_CHARS {
        let mut res = String::from_str(description.substring_char(0, SHORT_DESCRIPTION_CHARS));
        res.append("...");
        res
    } else {
        String::from_str(description)
    }
}

/// A shortened description begins with the description itself and is at
/// most 63 characters long.
pub proof fn law_short_description_is_prefix(description: Seq<char>)
    ensures
        short_description_text(description).len() <= SHORT_DESCRIPTION_CHARS + 3,
        description.len() <= SHORT_DESCRIPTION_CHARS ==> short_description_text(description)
            == description,
        description.len() > SHORT_DESCRIPTION_CHARS ==> short_description_text(description).take(
            SHORT_DESCRIPTION_CHARS as int,
        ) == description.take(SHORT_DESCRIPTION_CHARS as int),
{
    reveal_strlit("...");
    if description.len() > SHORT_DESCRIPTION_CHARS {
        assert((description.take(SHORT_DESCRIPTION_CHARS as int) + "..."@).take(
            SHORT_DESCRIPTION_CHARS as int,
        ) =~= description.take(SHORT_DESCRIPTION_CHARS as int));
    }
}

/// "N участников".
pub fn members_label(count: u64) -> (res: String)
    ensures
        res@ == decimal(count as nat) + " участников"@,
{
    let mut res = String::new();
    push_decimal(&mut res, count);
    res.append(" участников");
    res
}

/// A click on a card expands it, or collapses it when it is the expanded one.
pub fn toggle_expanded(expanded: Option<u128>, id: u128) -> (res: Option<u128>)
    ensures
        res == if expanded == Some(id) { None::<u128> } else { Some(id) },
{
    match expanded {
        Some(e) => if e == id { None } else { Some(id) },
        None => Some(id),
    }
}

/// Clicking the same card twice restores the catalogue, unless another card
/// was expanded before (it stays collapsed).
pub proof fn law_toggle_expanded_twice(expanded: Option<u128>, id: u128)
    ensures
        ({
            let once = if expanded == Some(id) { None::<u128> } else { Some(id) };
            let twice = if once == Some(id) { None::<u128> } else { Some(id) };
            (expanded is None || expanded == Some(id)) ==> twice == expanded
        }),
{
}

/// The values edited in the server settings dialog.
pub struct ServerSettingsForm {
    pub name: String,
    pub description: String,
    pub icon_url: String,
    pub cover: String,
    pub is_public: bool,
}

/// The settings dialog starts with the server's current values.
pub fn settings_form_of(server: &Server) -> (res: ServerSettingsForm)
    ensures
        res.name@ == server.name@,
        res.description@ == server.description@,
        res.icon_url@ == server.icon_url@,
        res.cover@ == server.cover@,
        res.is_public == server.is_public,
{
    ServerSettingsForm {
        name: server.name.clone(),
        description: server.description.clone(),
        icon_url: server.icon_url.clone(),
        cover: server.cover.clone(),
        is_public: server.is_public,
    }
}

/// Saving the dialog: a blank name keeps the old one; the other fields take
/// the edited values.
pub fn apply_server_settings(server: &mut Server, form: &ServerSettingsForm)
    ensures
        final(server).name@ == if trimmed(form.name@).len() > 0 { form.name@ } else { old(server).name@ },
        final(server).description@ == form.description@,
        final(server).icon_url@ == form.icon_url@,
        final(server).cover@ == form.cover@,
        final(server).is_public == form.is_public,
        final(server).id == old(server).id,
        final(server).owner_id == old(server).owner_id,
        final(server).members_count == old(server).members_count,
        final(server).created_at == old(server).created_at,
{
    if !trim_str(form.name.as_str()).is_empty() {
        server.name = form.name.clone();
    }
    server.description = form.description.clone();
    server.icon_url = form.icon_url.clone();
    server.cover = form.cover.clone();
    server.is_public = form.is_public;
}

/// Carries a saved name and icon to every sidebar entry of server `id`.
pub fn sync_server_list(list: &mut Vec<ServerSmallPart>, id: u128, name: &String, icon_url: &String)
    ensures
        final(list)@.len() == old(list)@.len(),
        forall|k: int| 0 <= k < old(list)@.len() ==> {
            let before = old(list)@[k];
            let after = #[trigger] final(list)@[k];
            &&& after.id == before.id
            &&& if before.id == id {
                after.name@ == name@ && after.icon_url@ == icon_url@
            } else {
                after == before
            }
        },
{
    let n = list.len();
    let mut k: usize = 0;
    while k < n
        invariant
            n == list@.len(),
            n == old(list)@.len(),
            k <= n,
            forall|j: int| 0 <= j < n ==> {
                let before = old(list)@[j];
                let after = #[trigger] list@[j];
                &&& after.id == before.id
                &&& if j < k && before.id == id {
                    after.name@ == name@ && after.icon_url@ == icon_url@
                } else {
                    after == before
                }
            },
        decreases n - k,
    {
        if list[k].id == id {
            let item = ServerSmallPart { id, name: name.clone(), icon_url: icon_url.clone() };
            list.set(k, item);
        }
        k = k + 1;
    }
}

/// What selecting a server in the sidebar does.
pub enum ServerSelection {
    /// The server was already open: only the open channel is closed.
    Reselected,
    /// Another server opens: the open channel, its messages and the member
    /// list are cleared, the server is shown at once from its sidebar entry
    /// when there is one, and its details and members are fetched.
    Switched { placeholder: Option<Server> },
}

/// The server shown while the details of a sidebar entry load: owner and
/// description unknown, public, one member, created at the epoch.
pub open spec fn placeholder_of(small: ServerSmallPart, server: Server) -> bool {
    &&& server.id == small.id
    &&& server.owner_id == 0
    &&& server.name@ == small.name@
    &&& server.description@ == Seq::<char>::empty()
    &&& server.icon_url@ == small.icon_url@
    &&& server.cover@ == Seq::<char>::empty()
    &&& server.is_public
    &&& server.members_count == 1
    &&& server.created_at == 0
}

/// The server shown at once when `server_id` is selected: the placeholder of
/// its first sidebar entry, or none when the sidebar has no entry for it.
pub open spec fn placeholder_from_list(list: Seq<ServerSmallPart>, server_id: u128, placeholder: Option<Server>) -> bool {
    match placeholder {
        Some(s) => exists|k: int| 0 <= k < list.len() && list[k].id == server_id
            && (forall|j: int| 0 <= j < k ==> (#[trigger] list[j]).id != server_id)
            && placeholder_of(#[trigger] list[k], s),
        None => forall|k: int| 0 <= k < list.len() ==> (#[trigger] list[k]).id != server_id,
    }
}

/// Decides what selecting server `server_id` does.
pub fn plan_server_selection(current: Option<u128>, list: &Vec<ServerSmallPart>, server_id: u128) -> (res:
    ServerSelection)
    ensures
        current == Some(server_id) ==> res is Reselected,
        current != Some(server_id) ==> (res matches ServerSelection::Switched { placeholder }
            && placeholder_from_list(list@, server_id, placeholder)),
{
    if let Some(c) = current {
        if c == server_id {
            return ServerSelection::Reselected;
        }
    }
    let n = list.len();
    let mut k: usize = 0;
    while k < n
        invariant
            n == list@.len(),
            k <= n,
            current != Some(server_id),
            forall|j: int| 0 <= j < k ==> (#[trigger] list@[j]).id != server_id,
        decreases n - k,
    {
        if list[k].id == server_id {
            let small = &list[k];
            let placeholder = Server {
                id: small.id,
                owner_id: 0,
                name: small.name.clone(),
                description: String::new(),
                icon_url: small.icon_url.clone(),
                cover: String::new(),
                is_public: true,
                members_count: 1,
                created_at: 0,
            };
            return ServerSelection::Switched { placeholder: Some(placeholder) };
        }
        k = k + 1;
    }
    ServerSelection::Switched { placeholder: None }
}

/// The servers of the user, the open one and its members.
pub struct ServerState {
    pub current: Option<Server>,
    pub list: Vec<ServerSmallPart>,
    pub members: Vec<MemberView>,
}

impl ServerState {
    /// Nothing loaded.
    pub fn new() -> (res: Self)
        ensures
            res.current is None,
            res.list@.len() == 0,
            res.members@.len() == 0,
    {
        ServerState { current: None, list: Vec::new(), members: Vec::new() }
    }

    /// Id of the open server.
    pub fn current_id(&self) -> (res: Option<u128>)
        ensures
            res == match self.current {
                Some(s) => Some(s.id),
                None => None::<u128>,
            },
    {
        match &self.current {
            Some(s) => Some(s.id),
            None => None,
        }
    }

    /// The user's servers arrived; a failed request leaves the list empty.
    pub fn servers_loaded(&mut self, servers: Option<Vec<ServerSmallPart>>)
        ensures
            final(self).list@ == match servers {
                Some(v) => v@,
                None => Seq::<ServerSmallPart>::empty(),
            },
            final(self).current == old(self).current,
            final(self).members == old(self).members,
    {
        self.list = match servers {
            Some(v) => v,
            None => Vec::new(),
        };
    }

    /// A server was selected in the sidebar: applies the plan (the caller
    /// closes the open channel and, on a switch, fetches details and members).
    pub fn select(&mut self, server_id: u128) -> (res: ServerSelection)
        ensures
            old(self).current matches Some(s) && s.id == server_id ==> res is Reselected
                && *final(self) == *old(self),
            !(old(self).current matches Some(s) && s.id == server_id) ==> (res matches ServerSelection::Switched {
                placeholder,
            } && final(self).members@.len() == 0 && final(self).list == old(self).list
                && placeholder_from_list(old(self).list@, server_id, placeholder)
                && match placeholder {
                Some(p) => final(self).current == Some(p),
                None => final(self).current == old(self).current,
            }),
    {
        let plan = plan_server_selection(self.current_id(), &self.list, server_id);
        match plan {
            ServerSelection::Reselected => ServerSelection::Reselected,
            ServerSelection::Switched { placeholder } => {
                match &placeholder {
                    Some(p) => {
                        self.current = Some(p.clone());
                    },
                    None => {},
                }
                self.members = Vec::new();
                ServerSelection::Switched { placeholder }
            },
        }
    }

    /// The details of the open server arrived.
    pub fn details_loaded(&mut self, server: Server)
        ensures
            final(self).current == Some(server),
            final(self).list == old(self).list,
            final(self).members == old(self).members,
    {
        self.current = Some(server);
    }

    /// The members of the open server arrived.
    pub fn members_loaded(&mut self, members: Vec<MemberView>)
        ensures
            final(self).members == members,
            final(self).current == old(self).current,
            final(self).list == old(self).list,
    {
        self.members = members;
    }

    /// A server the user created: it joins the sidebar.
    pub fn created(&mut self, server: &Server)
        ensures
            final(self).list@.len() == old(self).list@.len() + 1,
            final(self).list@.drop_last() == old(self).list@,
            final(self).list@.last().id == server.id,
            final(self).list@.last().name@ == server.name@,
            final(self).list@.last().icon_url@ == server.icon_url@,
            final(self).current == old(self).current,
            final(self).members == old(self).members,
    {
        self.list.push(small_part_of(server));
    }

    /// A public server was joined: it joins the sidebar and opens.
    pub fn joined(&mut self, server: Server)
        ensures
            final(self).list@.len() == old(self).list@.len() + 1,
            final(self).list@.drop_last() == old(self).list@,
            final(self).list@.last().id == server.id,
            final(self).list@.last().name@ == server.name@,
            final(self).list@.last().icon_url@ == server.icon_url@,
            final(self).current == Some(server),
            final(self).members == old(self).members,
    {
        self.list.push(small_part_of(&server));
        self.current = Some(server);
    }

    /// "Leave server" in the settings dialog closes the open server.
    pub fn leave(&mut self)
        ensures
            final(self).current is None,
            final(self).list == old(self).list,
            final(self).members == old(self).members,
    {
        self.current = None;
    }

    /// Saving the settings dialog updates the open server and its sidebar
    /// entries; without an open server nothing changes.
    pub fn save_settings(&mut self, form: &ServerSettingsForm)
        ensures
            old(self).current is None ==> *final(self) == *old(self),
            old(self).current matches Some(before) ==> (final(self).current matches Some(after)
                && after.id == before.id
                && after.name@ == (if trimmed(form.name@).len() > 0 { form.name@ } else { before.name@ })
                && after.description@ == form.description@ && after.icon_url@ == form.icon_url@
                && after.cover@ == form.cover@ && after.is_public == form.is_public
                && after.owner_id == before.owner_id && after.members_count == before.members_count
                && after.created_at == before.created_at
                && final(self).list@.len() == old(self).list@.len()
                && forall|k: int| 0 <= k < old(self).list@.len() ==> {
                    let b = old(self).list@[k];
                    let a = #[trigger] final(self).list@[k];
                    &&& a.id == b.id
                    &&& if b.id == before.id {
                        a.name@ == after.name@ && a.icon_url@ == after.icon_url@
                    } else {
                        a == b
                    }
                }),
            final(self).members == old(self).members,
    {
        match self.current.take() {
            None => {},
            Some(mut server) => {
                apply_server_settings(&mut server, form);
                sync_server_list(&mut self.list, server.id, &server.name, &server.icon_url);
                self.current = Some(server);
            },
        }
    }
}

/// The views of the create/join dialog.
#[derive(Clone, Copy, PartialEq, Eq, Structural, Debug)]
pub enum ModalView {
    Home,
    Create,
    Join,
}

/// State of the create/join dialog.
pub struct CreateServerState {
    pub is_modal_open: bool,
    pub modal_view: ModalView,
    pub server_name: String,
    pub is_public: bool,
    pub public_servers: Vec<Server>,
    pub expanded_id: Option<u128>,
    /// The catalogue was opened from the home dashboard.
    pub from_dashboard: bool,
}

impl CreateServerState {
    /// The dialog as the sidebar sets it up: closed, on its first view, with
    /// a public server to be named.
    pub fn new() -> (res: Self)
        ensures
            !res.is_modal_open,
            res.modal_view == ModalView::Home,
            res.server_name@ == Seq::<char>::empty(),
            res.is_public,
            res.public_servers@.len() == 0,
            res.expanded_id is None,
            !res.from_dashboard,
    {
        CreateServerState {
            is_modal_open: false,
            modal_view: ModalView::Home,
            server_name: String::new(),
            is_public: true,
            public_servers: Vec::new(),
            expanded_id: None,
            from_dashboard: false,
        }
    }

    /// Whether `view` is on screen.
    pub open spec fn spec_is_visible(&self, view: ModalView) -> bool {
        self.is_modal_open && self.modal_view == view
    }

    pub fn is_visible(&self, view: ModalView) -> (res: bool)
        ensures
            res == self.spec_is_visible(view),
    {
        self.is_modal_open && self.modal_view == view
    }

    /// The `+` button of the sidebar opens the dialog on its first view.
    pub fn open_from_sidebar(&mut self)
        ensures
            final(self).is_modal_open,
            final(self).modal_view == ModalView::Home,
            !final(self).from_dashboard,
            final(self).server_name == old(self).server_name,
            final(self).is_public == old(self).is_public,
            final(self).public_servers == old(self).public_servers,
            final(self).expanded_id == old(self).expanded_id,
    {
        self.from_dashboard = false;
        self.modal_view = ModalView::Home;
        self.is_modal_open = true;
    }

    /// Closing the dialog resets it, keeping only the public/private choice.
    pub fn close(&mut self)
        ensures
            !final(self).is_modal_open,
            final(self).modal_view == ModalView::Home,
            final(self).server_name@ == Seq::<char>::empty(),
            final(self).public_servers@.len() == 0,
            final(self).is_public == old(self).is_public,
            final(self).expanded_id == old(self).expanded_id,
            final(self).from_dashboard == old(self).from_dashboard,
    {
        self.is_modal_open = false;
        self.modal_view = ModalView::Home;
        self.server_name = String::new();
        self.public_servers = Vec::new();
    }

    /// Shows the form that names a new server.
    pub fn show_create(&mut self)
        ensures
            final(self).modal_view == ModalView::Create,
            final(self).is_modal_open == old(self).is_modal_open,
            final(self).server_name == old(self).server_name,
            final(self).is_public == old(self).is_public,
            final(self).public_servers == old(self).public_servers,
            final(self).expanded_id == old(self).expanded_id,
            final(self).from_dashboard == old(self).from_dashboard,
    {
        self.modal_view = ModalView::Create;
    }

    /// The dashboard's "create" card opens the naming form directly.
    pub fn open_create(&mut self)
        ensures
            final(self).is_modal_open,
            final(self).modal_view == ModalView::Create,
            final(self).server_name == old(self).server_name,
            final(self).is_public == old(self).is_public,
            final(self).public_servers == old(self).public_servers,
            final(self).expanded_id == old(self).expanded_id,
            final(self).from_dashboard == old(self).from_dashboard,
    {
        self.modal_view = ModalView::Create;
        self.is_modal_open = true;
    }

    /// Opens the catalogue of public servers with `catalog` shown until the
    /// server answers; no card is expanded.
    pub fn open_join(&mut self, from_dashboard: bool, catalog: Vec<Server>)
        ensures
            final(self).is_modal_open,
            final(self).modal_view == ModalView::Join,
            final(self).expanded_id is None,
            final(self).public_servers@ == catalog@,
            final(self).from_dashboard == from_dashboard,
            final(self).server_name == old(self).server_name,
            final(self).is_public == old(self).is_public,
    {
        self.from_dashboard = from_dashboard;
        self.modal_view = ModalView::Join;
        self.is_modal_open = true;
        self.expanded_id = None;
        self.public_servers = catalog;
    }

    /// The server's list of public servers replaces the catalogue, unless it
    /// is empty.
    pub fn public_servers_loaded(&mut self, servers: Vec<Server>)
        ensures
            servers@.len() > 0 ==> *final(self) == (CreateServerState { public_servers: servers, ..*old(self) }),
            servers@.len() == 0 ==> *final(self) == *old(self),
    {
        if servers.len() > 0 {
            self.public_servers = servers;
        }
    }

    /// "Back" in the catalogue: back to the dashboard (closing the dialog)
    /// when it was opened there, else back to the dialog's first view.
    pub fn join_back(&mut self)
        ensures
            old(self).from_dashboard ==> !final(self).is_modal_open && final(self).public_servers@.len() == 0,
            !old(self).from_dashboard ==> final(self).is_modal_open == old(self).is_modal_open
                && final(self).public_servers == old(self).public_servers,
            final(self).modal_view == ModalView::Home,
            final(self).from_dashboard == old(self).from_dashboard,
            final(self).server_name == old(self).server_name,
            final(self).is_public == old(self).is_public,
            final(self).expanded_id == old(self).expanded_id,
    {
        if self.from_dashboard {
            self.is_modal_open = false;
            self.modal_view = ModalView::Home;
            self.public_servers = Vec::new();
        } else {
            self.modal_view = ModalView::Home;
        }
    }

    /// "Create": with a name that is not blank, the dialog closes and resets
    /// the name, and the request to send is returned; a blank name changes
    /// nothing.
    pub fn submit_create(&mut self) -> (res: Option<ServerCreateInfo>)
        ensures
            trimmed(old(self).server_name@).len() == 0 ==> res is None && *final(self) == *old(self),
            trimmed(old(self).server_name@).len() > 0 ==> (res matches Some(info)
                && info.name@ == old(self).server_name@ && info.is_public == old(self).is_public
                && !final(self).is_modal_open && final(self).modal_view == ModalView::Home
                && final(self).server_name@ == Seq::<char>::empty()
                && final(self).is_public == old(self).is_public
                && final(self).public_servers == old(self).public_servers
                && final(self).expanded_id == old(self).expanded_id
                && final(self).from_dashboard == old(self).from_dashboard),
    {
        let name = self.server_name.clone();
        if trim_str(name.as_str()).is_empty() {
            return None;
        }
        let info = ServerCreateInfo { name, is_public: self.is_public };
        self.is_modal_open = false;
        self.modal_view = ModalView::Home;
        self.server_name = String::new();
        Some(info)
    }

    /// Joining a server from the catalogue succeeded: the dialog closes.
    pub fn joined(&mut self)
        ensures
            *final(self) == (CreateServerState { is_modal_open: false, ..*old(self) }),
    {
        self.is_modal_open = false;
    }
}

/// At most one view of the dialog is on screen.
pub proof fn law_one_dialog_view(state: CreateServerState)
    ensures
        (state.spec_is_visible(ModalView::Home) as int) + (state.spec_is_visible(ModalView::Create) as int)
            + (state.spec_is_visible(ModalView::Join) as int) <= 1,
        !state.is_modal_open ==> !state.spec_is_visible(ModalView::Home) && !state.spec_is_visible(
            ModalView::Create,
        ) && !state.spec_is_visible(ModalView::Join),
{
}

/// A public server of the catalogue shown before the server answers.
fn catalog_entry(id: u128, name: &str, description: &str, members_count: u64, cover: &str) -> (res: Server)
    ensures
        res.id == id,
        res.owner_id == 0,
        res.name@ == name@,
        res.description@ == description@,
        res.icon_url@ == Seq::<char>::empty(),
        res.cover@ == cover@,
        res.is_public,
        res.members_count == members_count,
        res.created_at == 0,
{
    Server {
        id,
        owner_id: 0,
        name: String::from_str(name),
        description: String::from_str(description),
        icon_url: String::new(),
        cover: String::from_str(cover),
        is_public: true,
        members_count,
        created_at: 0,
    }
}

/// The five public servers the catalogue shows while the server's list loads.
pub fn demo_public_servers() -> (res: Vec<Server>)
    ensures
        res@.len() == 5,
        res@[0].id == 0x550e8400_e29b_41d4_a716_446655440001 && res@[0].name@ == "Rust Developers"@ && res@[0].members_count == 1247,
        res@[1].id == 0x550e8400_e29b_41d4_a716_446655440002 && res@[1].name@ == "Гейм-дев"@ && res@[1].members_count == 834,
        res@[2].id == 0x550e8400_e29b_41d4_a716_446655440003 && res@[2].name@ == "Музыка"@ && res@[2].members_count == 2103,
        res@[3].id == 0x550e8400_e29b_41d4_a716_446655440004 && res@[3].name@ == "Аниме клуб"@ && res@[3].members_count == 3562,
        res@[4].id == 0x550e8400_e29b_41d4_a716_446655440005 && res@[4].name@ == "Memes & Chill"@ && res@[4].members_count == 5891,
        forall|k: int| 0 <= k < 5 ==> (#[trigger] res@[k]).is_public && res@[k].owner_id == 0
            && res@[k].created_at == 0 && res@[k].icon_url@ == Seq::<char>::empty(),
{
    let mut res = Vec::new();
    res.push(catalog_entry(
        0x550e8400_e29b_41d4_a716_446655440001,
        "Rust Developers",
        "Сообщество разработчиков на Rust. Обсуждаем код, делимся проектами и помогаем новичкам.",
        1247,
        "https://images.unsplash.com/photo-1515879218367-8466d910auj4?w=600",
    ));
    res.push(catalog_entry(
        0x550e8400_e29b_41d4_a716_446655440002,
        "Гейм-дев",
        "Разработка игр на всех движках. Unity, Unreal, Godot — всё обсуждаем здесь.",
        834,
        "https://images.unsplash.com/photo-1511512578047-dfb367046420?w=600",
    ));
    res.push(catalog_entry(
        0x550e8400_e29b_41d4_a716_446655440003,
        "Музыка",
        "Делимся музыкой, обсуждаем альбомы и находим единомышленников по вкусам.",
        2103,
        "https://images.unsplash.com/photo-1511379938547-c1f69419868d?w=600",
    ));
    res.push(catalog_entry(
        0x550e8400_e29b_41d4_a716_446655440004,
        "Аниме клуб",
        "Обсуждаем аниме, мангу и всё связанное с японской культурой. Новости, обзоры, рекомендации.",
        3562,
        "https://images.unsplash.com/photo-1578632767115-351597cf2477?w=600",
    ));
    res.push(catalog_entry(
        0x550e8400_e29b_41d4_a716_446655440005,
        "Memes & Chill",
        "Лучшие мемы, тёплая атмосфера и хорошее настроение каждый день.",
        5891,
        "https://images.unsplash.com/photo-1533738363-b7f9aef128ce?w=600",
    ));
    res
}

} // verus!
