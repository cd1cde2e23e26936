use gilvave_ui::api::{answer_command, client_error, Api, ClientFailure, Client, Endpoint, ErrorInfo};
use gilvave_ui::channels::{channel_name_from_lowercase, normalize_channel_name, plan_channel_click, split_channels, ChannelState, ChannelType, ChannelView};
use gilvave_ui::gateway::{dispatch_of, event_for, Command, Dispatch, ListenerGuard, ServerReceive, ServerSend, SessionEnd, WsService};
use gilvave_ui::home::{content_class, dm_input_after_send, dm_item_class, dm_start_text, go_home, home_button_classes, status_class, unread_badge, demo_contacts, demo_groups, UiState};
use gilvave_ui::messages::MessageView;
use gilvave_ui::navigation::HomeTab;
use gilvave_ui::servers::{
    demo_public_servers, members_label, plan_server_selection, short_description, sync_server_list,
    toggle_expanded, CreateServerState, ModalView, Server, ServerSelection, ServerSettingsForm,
    ServerSmallPart, ServerState,
};

fn small(id: u128, name: &str) -> ServerSmallPart {
    ServerSmallPart { id, name: name.to_string(), icon_url: format!("{name}.png") }
}

fn server(id: u128, name: &str) -> Server {
    Server {
        id,
        owner_id: 5,
        name: name.to_string(),
        description: "d".to_string(),
        icon_url: "i".to_string(),
        cover: "c".to_string(),
        is_public: false,
        members_count: 3,
        created_at: 11,
    }
}

fn channel(id: u128, kind: ChannelType) -> ChannelView {
    ChannelView { id, name: format!("c{id}"), kind, position: id as i32 }
}

#[test]
fn short_descriptions() {
    let sixty = "я".repeat(60);
    assert_eq!(short_description(&sixty), sixty);
    let long = format!("{sixty}!");
    assert_eq!(short_description(&long), format!("{sixty}..."));
    assert_eq!(short_description(""), "");
    assert_eq!(members_label(1247), "1247 участников");
}

#[test]
fn expanding_cards() {
    assert_eq!(toggle_expanded(None, 1), Some(1));
    assert_eq!(toggle_expanded(Some(1), 1), None);
    assert_eq!(toggle_expanded(Some(2), 1), Some(1));
    assert_eq!(toggle_expanded(toggle_expanded(Some(2), 1), 1), None);
}

#[test]
fn selecting_servers() {
    let list = vec![small(1, "one"), small(2, "two"), small(2, "dup")];
    assert!(matches!(plan_server_selection(Some(2), &list, 2), ServerSelection::Reselected));
    match plan_server_selection(Some(1), &list, 2) {
        ServerSelection::Switched { placeholder: Some(p) } => {
            assert_eq!(p.id, 2);
            assert_eq!(p.name, "two");
            assert_eq!(p.icon_url, "two.png");
            assert_eq!((p.owner_id, p.members_count, p.created_at, p.is_public), (0, 1, 0, true));
            assert_eq!(p.description, "");
        },
        _ => panic!("expected a switch with a placeholder"),
    }
    assert!(matches!(plan_server_selection(None, &list, 9), ServerSelection::Switched { placeholder: None }));

    let mut st = ServerState::new();
    st.servers_loaded(Some(list));
    st.members_loaded(vec![]);
    match st.select(1) {
        ServerSelection::Switched { placeholder: Some(p) } => {
            assert_eq!((p.id, p.name.as_str(), p.icon_url.as_str()), (1, "one", "one.png"));
            assert_eq!((p.owner_id, p.description.as_str(), p.is_public, p.members_count), (0, "", true, 1));
        }
        _ => panic!("selecting a listed server switches to its sidebar entry"),
    }
    assert_eq!(st.current_id(), Some(1));
    assert!(matches!(st.select(1), ServerSelection::Reselected));
    st.joined(server(7, "seven"));
    assert_eq!(st.current_id(), Some(7));
    assert_eq!(st.list.last().unwrap().id, 7);
    assert_eq!(st.list.last().unwrap().icon_url, "i");
    st.created(&server(8, "eight"));
    assert_eq!(st.list.len(), 5);
    assert_eq!(st.current_id(), Some(7));
    st.leave();
    assert_eq!(st.current_id(), None);
    st.servers_loaded(None);
    assert!(st.list.is_empty());
}

#[test]
fn saving_server_settings() {
    let mut st = ServerState::new();
    st.servers_loaded(Some(vec![small(1, "one"), small(2, "two"), small(1, "one-again")]));
    st.details_loaded(server(1, "one"));
    st.save_settings(&ServerSettingsForm {
        name: "  ".to_string(),
        description: "new".to_string(),
        icon_url: "new.png".to_string(),
        cover: String::new(),
        is_public: true,
    });
    let cur = st.current.as_ref().unwrap();
    assert_eq!(cur.name, "one");
    assert_eq!(cur.description, "new");
    assert!(cur.is_public);
    assert_eq!((cur.owner_id, cur.members_count, cur.created_at), (5, 3, 11));
    assert_eq!(st.list[0].icon_url, "new.png");
    assert_eq!(st.list[2].icon_url, "new.png");
    assert_eq!(st.list[2].name, "one");
    assert_eq!(st.list[1].icon_url, "two.png");

    let mut list = vec![small(1, "a"), small(2, "b")];
    sync_server_list(&mut list, 2, &"B".to_string(), &"B.png".to_string());
    assert_eq!(list[1].name, "B");
    assert_eq!(list[0].name, "a");
}

#[test]
fn create_and_join_dialog() {
    let mut d = CreateServerState::new();
    assert!(!d.is_visible(ModalView::Home));
    d.open_from_sidebar();
    assert!(d.is_visible(ModalView::Home));
    d.show_create();
    assert!(d.is_visible(ModalView::Create) && !d.is_visible(ModalView::Home));
    d.server_name = "   ".to_string();
    assert!(d.submit_create().is_none());
    assert!(d.is_visible(ModalView::Create));
    d.server_name = "Мой сервер".to_string();
    d.is_public = false;
    let info = d.submit_create().unwrap();
    assert_eq!(info.name, "Мой сервер");
    assert!(!info.is_public);
    assert!(!d.is_modal_open && d.server_name.is_empty() && d.modal_view == ModalView::Home);

    d.open_join(true, demo_public_servers());
    assert!(d.is_visible(ModalView::Join));
    assert_eq!(d.public_servers.len(), 5);
    d.public_servers_loaded(vec![]);
    assert_eq!(d.public_servers.len(), 5);
    d.public_servers_loaded(vec![server(1, "x")]);
    assert_eq!(d.public_servers.len(), 1);
    d.join_back();
    assert!(!d.is_modal_open && d.public_servers.is_empty());

    d.open_join(false, demo_public_servers());
    d.join_back();
    assert!(d.is_visible(ModalView::Home));
    assert_eq!(d.public_servers.len(), 5);
    d.close();
    assert!(!d.is_modal_open && d.public_servers.is_empty());
    d.open_create();
    assert!(d.is_visible(ModalView::Create));
    d.joined();
    assert!(!d.is_modal_open);
}

#[test]
fn demo_catalogue() {
    let c = demo_public_servers();
    assert_eq!(c[0].name, "Rust Developers");
    assert_eq!(c[0].id, 0x550e8400_e29b_41d4_a716_446655440001);
    assert_eq!(c[4].members_count, 5891);
    assert!(c.iter().all(|s| s.is_public && s.icon_url.is_empty()));
    assert_eq!(demo_contacts().len(), 5);
    assert_eq!(demo_groups()[1].members_count, 6);
}

#[test]
fn channels_by_kind() {
    let (text, voice) = split_channels(vec![
        channel(1, ChannelType::TEXT),
        channel(2, ChannelType::VOICE),
        channel(3, ChannelType::TEXT),
    ]);
    assert_eq!(text.iter().map(|c| c.id).collect::<Vec<_>>(), vec![1, 3]);
    assert_eq!(voice.iter().map(|c| c.id).collect::<Vec<_>>(), vec![2]);
}

#[test]
fn channel_names_and_creation() {
    assert_eq!(normalize_channel_name("  Новый Канал  ").as_deref(), Some("новый-канал"));
    assert_eq!(normalize_channel_name("a  b").as_deref(), Some("a--b"));
    assert_eq!(normalize_channel_name(" \t "), None);
    assert_eq!(channel_name_from_lowercase("Keep Case").as_deref(), Some("Keep-Case"));
    assert_eq!(channel_name_from_lowercase(""), None);
    let mut st = ChannelState::new();
    assert!(!st.create_channel("   ", ChannelType::TEXT));
    assert!(st.text.is_empty());
    assert!(st.create_channel("General Chat", ChannelType::TEXT));
    assert_eq!(st.text[0].name, "general-chat");
    assert_eq!(st.current.as_ref().unwrap().name, "general-chat");
    assert!(st.create_channel("Voice", ChannelType::VOICE));
    assert_eq!(st.voice[0].name, "voice");
    assert_eq!(st.current.as_ref().unwrap().name, "general-chat");
    assert_eq!(st.server_changed(true), Some(0));
    assert!(st.current.is_none() && st.text.len() == 1);
    assert_eq!(st.server_changed(false), None);
    assert!(st.text.is_empty() && st.voice.is_empty());
    st.channels_loaded(vec![channel(4, ChannelType::VOICE)]);
    assert_eq!(st.voice.len(), 1);
    let c = plan_channel_click(Some(1), 1);
    assert!(c.leave.is_none() && c.join.is_none());
    let c = plan_channel_click(Some(1), 2);
    assert_eq!((c.leave, c.join), (Some(1), Some(2)));
    let c = plan_channel_click(None, 2);
    assert_eq!((c.leave, c.join), (None, Some(2)));
}

#[test]
fn home_screen() {
    assert_eq!(content_class(true, HomeTab::Chats), "discord-content in-server");
    assert_eq!(content_class(false, HomeTab::Chats), "discord-content in-home show-chats");
    assert_eq!(content_class(false, HomeTab::Dashboard), "discord-content in-home show-dashboard");
    assert_eq!(home_button_classes(false), ("home-pill active", "home-avatar-btn active"));
    let mut ui = UiState::new();
    ui.select_dm("Анна".to_string());
    assert!(ui.is_dm_active(&"Анна".to_string()) && !ui.is_dm_active(&"Ivan".to_string()));
    ui.show_friends();
    assert!(ui.is_friends_active());
    ui.open_create_channel(ChannelType::VOICE);
    assert!(ui.is_create_channel_open && ui.create_channel_type == ChannelType::VOICE);
    ui.select_dm("x".to_string());
    assert_eq!(go_home(&mut ui, Some(3)).leave_channel, Some(3));
    assert!(ui.selected_dm_name.is_none());
    assert_eq!(status_class("idle"), "status-dot idle");
    assert_eq!(dm_item_class(true), "dm-item active");
    assert_eq!(unread_badge(0), None);
    assert_eq!(unread_badge(12).as_deref(), Some("12"));
    assert_eq!(dm_start_text("Анна"), "Это начало вашей истории личных сообщений с Анна");
    assert_eq!(dm_input_after_send(&"hi".to_string()), "");
    assert_eq!(dm_input_after_send(&"  ".to_string()), "  ");
}

#[test]
fn routes_and_headers() {
    let base = "https://api.example";
    let r = Api::route(&Endpoint::GetServerChannels { server_id: 0x550e8400_e29b_41d4_a716_446655440001 }, base);
    assert_eq!(r.method, "GET");
    assert_eq!(r.url, "https://api.example/servers/550e8400-e29b-41d4-a716-446655440001/channels");
    assert!(!r.authorized);
    let r = Api::route(&Endpoint::GetPublicServers { page: 12 }, base);
    assert_eq!(r.url, "https://api.example/servers/public/12");
    assert!(r.authorized);
    let r = Api::route(&Endpoint::UpdateTokens, base);
    assert_eq!((r.method, r.url.as_str(), r.has_body), ("POST", "https://api.example/users/login", true));
    let r = Api::route(&Endpoint::JoinPublicServer { server_id: 1 }, base);
    assert_eq!(r.url, "https://api.example/servers/00000000-0000-0000-0000-000000000001/join_public");

    let h = Api::request_headers(true, Some("tok"));
    let pairs: Vec<(&str, &str)> = h.iter().map(|h| (h.name, h.value.as_str())).collect();
    assert_eq!(pairs, vec![("Accept", "application/json"), ("Content-Type", "application/json"), ("Authorization", "Bearer tok")]);
    assert_eq!(Api::request_headers(false, Some("")).len(), 1);
    assert_eq!(Api::request_headers(false, None).len(), 1);
    let _client = Client::default();
}

#[test]
fn responses_and_errors() {
    assert!(Api::is_success(200) && Api::is_success(299));
    assert!(!Api::is_success(199) && !Api::is_success(300) && !Api::is_success(401));
    let e = Api::response_error(404, "raw".to_string(), Some("not found".to_string()));
    assert_eq!((e.0, e.1.as_str()), (404, "not found"));
    let e = Api::response_error(500, "raw".to_string(), None);
    assert_eq!((e.0, e.1.as_str()), (500, "raw"));
    let e = client_error(ClientFailure::JsonDecode, "eof");
    assert_eq!((e.0, e.1.as_str()), (1, "JSON decode error: eof"));
    assert_eq!(client_error(ClientFailure::NoWindow, "x").1, "No window available");
    assert_eq!(client_error(ClientFailure::DeserializeCommand, "bad").1, "Failed to deserialize command: bad");
    assert_eq!(Api::response_text("привет".as_bytes().to_vec()).unwrap(), "привет");
    assert_eq!(Api::response_text(vec![]).unwrap(), "");
    let e = Api::response_text(vec![0x66, 0xff, 0x66]).unwrap_err();
    assert_eq!(e.0, 1);
    assert!(e.1.starts_with("UTF-8 decode error: "));
}

#[test]
fn commands_retry_once_after_unauthorized() {
    let unauthorized = || Err::<u32, ErrorInfo>(ErrorInfo(401, "expired".to_string()));
    assert_eq!(answer_command(Ok(1), true, Ok(2)).unwrap(), 1);
    assert_eq!(answer_command(unauthorized(), true, Ok(2)).unwrap(), 2);
    let e = answer_command(unauthorized(), false, Ok(2)).unwrap_err();
    assert_eq!((e.0, e.1.as_str()), (401, "expired"));
    let e = answer_command(unauthorized(), true, Err(ErrorInfo(403, "no".to_string()))).unwrap_err();
    assert_eq!(e.0, 403);
    let e = answer_command(Err::<u32, ErrorInfo>(ErrorInfo(500, "down".to_string())), true, Ok(2)).unwrap_err();
    assert_eq!(e.0, 500);
}

#[test]
fn gateway_events_and_commands() {
    let m = MessageView { id: 1, channel_id: 2, author_id: None, author_name: "a".to_string(), content: "c".to_string(), created_at: 0 };
    assert!(event_for(ServerReceive::Hello).is_none());
    assert!(event_for(ServerReceive::JoinSuccess).is_none());
    assert_eq!(event_for(ServerReceive::MessageNew(m)).unwrap().name(), "message_new");
    assert_eq!(event_for(ServerReceive::ChannelHistoryBefore(vec![])).unwrap().name(), "channel_history_before");
    assert_eq!(event_for(ServerReceive::ChannelHistoryAfter(vec![])).unwrap().name(), "channel_history_after");
    assert!(matches!(dispatch_of(Command::ListenWebSocket), Dispatch::Listen));
    assert!(matches!(dispatch_of(Command::GetPublicServers { page: 3 }), Dispatch::Http(Endpoint::GetPublicServers { page: 3 })));
    match dispatch_of(Command::MessageCreate { channel_id: 4, content: "hi".to_string() }) {
        Dispatch::Gateway(ServerSend::MessageCreate { channel_id, content }) => {
            assert_eq!((channel_id, content.as_str()), (4, "hi"));
        },
        _ => panic!("expected a gateway message"),
    }
    let mut g = ListenerGuard::new();
    assert!(g.try_start());
    assert!(!g.try_start());
    assert_eq!(WsService::connect_url("wss://x/ws", ""), "wss://x/ws");
    assert_eq!(WsService::connect_url("wss://x/ws", "t0k"), "wss://x/ws?token=t0k");
    assert_eq!(WsService::reconnect_delay_ms(SessionEnd::ConnectFailed), 2000);
    assert_eq!(WsService::reconnect_delay_ms(SessionEnd::Closed), 1000);
    let e = WsService::send_result(false, None).unwrap_err();
    assert_eq!((e.0, e.1.as_str()), (1, "WebSocket sender not initialized"));
    let e = WsService::send_result(true, Some("closed")).unwrap_err();
    assert_eq!(e.1, "closed");
    assert!(WsService::send_result(true, None).is_ok());
}
