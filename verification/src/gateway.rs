//! The WebSocket gateway: what the client sends, what the server pushes and
//! which interface event it becomes, the connection URL, the guard against
//! listening twice, and the pause before reconnecting.

use vstd::prelude::*;
use crate::api::{client_error, failure_text, ClientFailure, ErrorInfo, Endpoint, CLIENT_ERROR_CODE};
use crate::messages::MessageView;

verus! {

/// Messages the client sends over the gateway. Timestamps are Unix
/// nanoseconds.
pub enum ServerSend {
    JoinChannel { channel_id: u128 },
    LeftChannel { channel_id: u128 },
    MessageCreate { channel_id: u128, content: String },
    ChannelHistoryBefore { channel_id: u128, timestamp: i128 },
    ChannelHistoryAfter { channel_id: u128, timestamp: i128 },
}

/// Messages the server pushes over the gateway.
pub enum ServerReceive {
    Hello,
    JoinSuccess,
    MessageNew(MessageView),
    ChannelHistoryBefore(Vec<MessageView>),
    ChannelHistoryAfter(Vec<MessageView>),
}

/// An event handed to the interface.
pub enum UiEvent {
    MessageNew(MessageView),
    ChannelHistoryBefore(Vec<MessageView>),
    ChannelHistoryAfter(Vec<MessageView>),
}

impl UiEvent {
    pub open spec fn spec_name(&self) -> Seq<char> {
        match self {
            UiEvent::MessageNew(_) => "message_new"@,
            UiEvent::ChannelHistoryBefore(_) => "channel_history_before"@,
            UiEvent::ChannelHistoryAfter(_) => "channel_history_after"@,
        }
    }

    /// Name under which the event is emitted.
    pub fn name(&self) -> (res: &'static str)
        ensures
            res@ == self.spec_name(),
    {
        match self {
            UiEvent::MessageNew(_) => "message_new",
            UiEvent::ChannelHistoryBefore(_) => "channel_history_before",
            UiEvent::ChannelHistoryAfter(_) => "channel_history_after",
        }
    }
}

/// What a pushed message becomes: greetings and join confirmations are only
/// logged; messages and history go to the interface unchanged.
pub fn event_for(msg: ServerReceive) -> (res: Option<UiEvent>)
    ensures
        match msg {
            ServerReceive::Hello => res is None,
            ServerReceive::JoinSuccess => res is None,
            ServerReceive::MessageNew(m) => res == Some(UiEvent::MessageNew(m)),
            ServerReceive::ChannelHistoryBefore(v) => res == Some(UiEvent::ChannelHistoryBefore(v)),
            ServerReceive::ChannelHistoryAfter(v) => res == Some(UiEvent::ChannelHistoryAfter(v)),
        },
{
    match msg {
        ServerReceive::Hello => None,
        ServerReceive::JoinSuccess => None,
        ServerReceive::MessageNew(m) => Some(UiEvent::MessageNew(m)),
        ServerReceive::ChannelHistoryBefore(v) => Some(UiEvent::ChannelHistoryBefore(v)),
        ServerReceive::ChannelHistoryAfter(v) => Some(UiEvent::ChannelHistoryAfter(v)),
    }
}

/// The commands of the interface, without their request bodies.
pub enum Command {
    Register,
    Login,
    GetProfile,
    GetMembers { server_id: u128 },
    GetServerChannels { server_id: u128 },
    GetServerById { server_id: u128 },
    GetUserServers,
    GetPublicServers { page: u32 },
    CreateServer,
    JoinPublicServer { server_id: u128 },
    ListenWebSocket,
    JoinChannel { channel_id: u128 },
    LeftChannel { channel_id: u128 },
    MessageCreate { channel_id: u128, content: String },
    ChannelHistoryBefore { channel_id: u128, timestamp: i128 },
    ChannelHistoryAfter { channel_id: u128, timestamp: i128 },
}

/// Where a command is carried out.
pub enum Dispatch {
    /// An HTTP call (retried once after a token refresh on 401).
    Http(Endpoint),
    /// Starts listening on the gateway.
    Listen,
    /// A message sent over the gateway.
    Gateway(ServerSend),
}

/// Routes each command: account, server and channel-list commands go to the
/// HTTP API, channel traffic to the gateway.
pub fn dispatch_of(cmd: Command) -> (res: Dispatch)
    ensures
        match cmd {
            Command::Register => res == Dispatch::Http(Endpoint::Register),
            Command::Login => res == Dispatch::Http(Endpoint::Login),
            Command::GetProfile => res == Dispatch::Http(Endpoint::GetProfile),
            Command::GetMembers { server_id } => res == Dispatch::Http(Endpoint::GetMembers { server_id }),
            Command::GetServerChannels { server_id } =>
                res == Dispatch::Http(Endpoint::GetServerChannels { server_id }),
            Command::GetServerById { server_id } =>
                res == Dispatch::Http(Endpoint::GetServerById { server_id }),
            Command::GetUserServers => res == Dispatch::Http(Endpoint::GetUserServers),
            Command::GetPublicServers { page } => res == Dispatch::Http(Endpoint::GetPublicServers { page }),
            Command::CreateServer => res == Dispatch::Http(Endpoint::CreateServer),
            Command::JoinPublicServer { server_id } =>
                res == Dispatch::Http(Endpoint::JoinPublicServer { server_id }),
            Command::ListenWebSocket => res is Listen,
            Command::JoinChannel { channel_id } =>
                res == Dispatch::Gateway(ServerSend::JoinChannel { channel_id }),
            Command::LeftChannel { channel_id } =>
                res == Dispatch::Gateway(ServerSend::LeftChannel { channel_id }),
            Command::MessageCreate { channel_id, content } =>
                res == Dispatch::Gateway(ServerSend::MessageCreate { channel_id, content }),
            Command::ChannelHistoryBefore { channel_id, timestamp } =>
                res == Dispatch::Gateway(ServerSend::ChannelHistoryBefore { channel_id, timestamp }),
            Command::ChannelHistoryAfter { channel_id, timestamp } =>
                res == Dispatch::Gateway(ServerSend::ChannelHistoryAfter { channel_id, timestamp }),
        },
{
    match cmd {
        Command::Register => Dispatch::Http(Endpoint::Register),
        Command::Login => Dispatch::Http(Endpoint::Login),
        Command::GetProfile => Dispatch::Http(Endpoint::GetProfile),
        Command::GetMembers { server_id } => Dispatch::Http(Endpoint::GetMembers { server_id }),
        Command::GetServerChannels { server_id } => Dispatch::Http(Endpoint::GetServerChannels { server_id }),
        Command::GetServerById { server_id } => Dispatch::Http(Endpoint::GetServerById { server_id }),
        Command::GetUserServers => Dispatch::Http(Endpoint::GetUserServers),
        Command::GetPublicServers { page } => Dispatch::Http(Endpoint::GetPublicServers { page }),
        Command::CreateServer => Dispatch::Http(Endpoint::CreateServer),
        Command::JoinPublicServer { server_id } => Dispatch::Http(Endpoint::JoinPublicServer { server_id }),
        Command::ListenWebSocket => Dispatch::Listen,
        Command::JoinChannel { channel_id } => Dispatch::Gateway(ServerSend::JoinChannel { channel_id }),
        Command::LeftChannel { channel_id } => Dispatch::Gateway(ServerSend::LeftChannel { channel_id }),
        Command::MessageCreate { channel_id, content } =>
            Dispatch::Gateway(ServerSend::MessageCreate { channel_id, content }),
        Command::ChannelHistoryBefore { channel_id, timestamp } =>
            Dispatch::Gateway(ServerSend::ChannelHistoryBefore { channel_id, timestamp }),
        Command::ChannelHistoryAfter { channel_id, timestamp } =>
            Dispatch::Gateway(ServerSend::ChannelHistoryAfter { channel_id, timestamp }),
    }
}

/// How a gateway session ended.
pub enum SessionEnd {
    /// The connection could not be opened.
    ConnectFailed,
    /// An open connection ended (either side stopped).
    Closed,
}

/// The gateway service.
pub struct WsService;

/// Whether the gateway listener was started.
pub struct ListenerGuard {
    pub listening: bool,
}

/// Outcome of asking the guard to start listening, and the guard afterwards.
pub open spec fn start_request(g: ListenerGuard) -> (bool, ListenerGuard) {
    (!g.listening, ListenerGuard { listening: true })
}

impl ListenerGuard {
    pub fn new() -> (res: Self)
        ensures
            !res.listening,
    {
        ListenerGuard { listening: false }
    }

    /// Claims the listener: `true` for the first caller only.
    pub fn try_start(&mut self) -> (started: bool)
        ensures
            (started, *final(self)) == start_request(*old(self)),
    {
        if self.listening {
            false
        } else {
            self.listening = true;
            true
        }
    }
}

/// However often the listener is asked to start, only the first request
/// starts it.
pub proof fn law_listen_starts_once(g: ListenerGuard)
    ensures
        !start_request(start_request(g).1).0,
        start_request(start_request(g).1).1 == start_request(g).1,
{
}

impl WsService {
    /// The gateway URL, with the access token as a query parameter when
    /// there is one.
    pub fn connect_url(base_url: &str, token: &str) -> (res: String)
        ensures
            token@.len() == 0 ==> res@ == base_url@,
            token@.len() > 0 ==> res@ == base_url@ + "?token="@ + token@,
    {
        let mut url = String::from_str(base_url);
        if !token.is_empty() {
            url.append("?token=");
            url.append(token);
        }
        url
    }

    /// Milliseconds to wait before connecting again.
    pub fn reconnect_delay_ms(end: SessionEnd) -> (res: u64)
        ensures
            end is ConnectFailed ==> res == 2000,
            end is Closed ==> res == 1000,
    {
        match end {
            SessionEnd::ConnectFailed => 2000,
            SessionEnd::Closed => 1000,
        }
    }

    /// The answer to a gateway command: an error when no connection was set
    /// up yet, the channel's error text when handing the message over failed,
    /// success otherwise.
    pub fn send_result(sender_ready: bool, send_error: Option<&str>) -> (res: Result<(), ErrorInfo>)
        ensures
            !sender_ready ==> (res matches Err(e) && e.0 == CLIENT_ERROR_CODE
                && e.1@ == failure_text(ClientFailure::SenderNotInitialized, Seq::empty())),
            sender_ready ==> match send_error {
                Some(d) => res matches Err(e) && e.0 == CLIENT_ERROR_CODE && e.1@ == d@,
                None => res is Ok,
            },
    {
        if !sender_ready {
            return Err(client_error(ClientFailure::SenderNotInitialized, ""));
        }
        match send_error {
            Some(d) => Err(client_error(ClientFailure::SendFailed, d)),
            None => Ok(()),
        }
    }
}

} // verus!
