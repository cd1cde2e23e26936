//! The HTTP API of the backend: routes, request headers, how responses turn
//! into results, the client-side error texts, and the retry after a token
//! refresh.

use vstd::prelude::*;
use crate::ids::{uuid_string, uuid_text};
use crate::text::{decimal, push_decimal};
use vstd::utf8::{decode_utf8, valid_utf8};

verus! {

/// An error as the client reports it: an HTTP status, or 1 for a failure on
/// the client's side, and a message.
#[derive(Debug)]
pub struct ErrorInfo(pub u16, pub String);

impl Clone for ErrorInfo {
    fn clone(&self) -> (res: Self)
        ensures
            res == *self,
    {
        ErrorInfo(self.0, self.1.clone())
    }
}

/// Code of errors raised on the client's side.
pub const CLIENT_ERROR_CODE: u16 = 1;

/// HTTP status of an expired or missing access token.
pub const UNAUTHORIZED: u16 = 401;

/// Handle used by the command dispatcher.
#[derive(Clone)]
pub struct Client;

impl Default for Client {
    fn default() -> (res: Self)
        ensures
            res == Client,
    {
        Client
    }
}

/// The calls of the backend API.
pub struct Api;

/// The requests the client makes.
pub enum Endpoint {
    GetServerChannels { server_id: u128 },
    GetUserServers,
    GetPublicServers { page: u32 },
    GetMembers { server_id: u128 },
    CreateServer,
    GetServerById { server_id: u128 },
    JoinPublicServer { server_id: u128 },
    Register,
    Login,
    UpdateTokens,
    GetProfile,
}

/// Where a request goes and how.
pub struct Route {
    pub method: &'static str,
    pub url: String,
    /// The access token is sent.
    pub authorized: bool,
    /// A JSON body is sent.
    pub has_body: bool,
}

/// Method, path below the base URL, whether the token is sent and whether a
/// body is sent, for each endpoint.
pub open spec fn route_spec(e: Endpoint) -> (Seq<char>, Seq<char>, bool, bool) {
    match e {
        Endpoint::GetServerChannels { server_id } =>
            ("GET"@, "/servers/"@ + uuid_text(server_id) + "/channels"@, false, false),
        Endpoint::GetUserServers => ("GET"@, "/servers"@, true, false),
        Endpoint::GetPublicServers { page } =>
            ("GET"@, "/servers/public/"@ + decimal(page as nat), true, false),
        Endpoint::GetMembers { server_id } =>
            ("GET"@, "/servers/"@ + uuid_text(server_id) + "/members"@, true, false),
        Endpoint::CreateServer => ("POST"@, "/servers"@, true, true),
        Endpoint::GetServerById { server_id } =>
            ("GET"@, "/servers/"@ + uuid_text(server_id), true, false),
        Endpoint::JoinPublicServer { server_id } =>
            ("POST"@, "/servers/"@ + uuid_text(server_id) + "/join_public"@, true, false),
        Endpoint::Register => ("POST"@, "/users/register"@, false, true),
        Endpoint::Login => ("POST"@, "/users/login"@, false, true),
        Endpoint::UpdateTokens => ("POST"@, "/users/login"@, false, true),
        Endpoint::GetProfile => ("GET"@, "/users/me"@, true, false),
    }
}

/// The path of a request about server `id`, below the server's own address.
pub open spec fn server_path(id: u128) -> Seq<char> {
    "/servers/"@ + uuid_text(id)
}

/// The requests about a server go to four different addresses: its details
/// at the server's own address, its channels, its members and joining it
/// below that address; and the address names the server, so requests about
/// different servers never share one.
pub proof fn law_server_routes_distinct(a: u128, b: u128)
    ensures
        route_spec(Endpoint::GetServerById { server_id: a }).1 == server_path(a),
        route_spec(Endpoint::GetServerChannels { server_id: a }).1 == server_path(a) + "/channels"@,
        route_spec(Endpoint::GetMembers { server_id: a }).1 == server_path(a) + "/members"@,
        route_spec(Endpoint::JoinPublicServer { server_id: a }).1 == server_path(a) + "/join_public"@,
        route_spec(Endpoint::GetMembers { server_id: a }).1 != route_spec(Endpoint::GetServerById { server_id: b }).1,
        route_spec(Endpoint::GetMembers { server_id: a }).1 != route_spec(Endpoint::GetServerChannels { server_id: b }).1,
        route_spec(Endpoint::GetServerChannels { server_id: a }).1 != route_spec(Endpoint::GetServerById { server_id: b }).1,
        route_spec(Endpoint::JoinPublicServer { server_id: a }).1 != route_spec(Endpoint::GetServerById { server_id: b }).1,
        server_path(a) == server_path(b) ==> a == b,
        route_spec(Endpoint::GetMembers { server_id: a }).1 == route_spec(Endpoint::GetMembers { server_id: b }).1 ==> a == b,
        route_spec(Endpoint::GetServerChannels { server_id: a }).1 == route_spec(Endpoint::GetServerChannels { server_id: b }).1 ==> a == b,
{
    reveal_strlit("/servers/");
    reveal_strlit("/channels");
    reveal_strlit("/members");
    reveal_strlit("/join_public");
    crate::ids::law_uuid_text_round_trip(a);
    crate::ids::law_uuid_text_round_trip(b);
    assert(route_spec(Endpoint::GetServerChannels { server_id: a }).1 =~= server_path(a) + "/channels"@);
    assert(route_spec(Endpoint::GetMembers { server_id: a }).1 =~= server_path(a) + "/members"@);
    assert(route_spec(Endpoint::JoinPublicServer { server_id: a }).1 =~= server_path(a) + "/join_public"@);
    assert(route_spec(Endpoint::GetServerChannels { server_id: b }).1 =~= server_path(b) + "/channels"@);
    assert(route_spec(Endpoint::GetMembers { server_id: b }).1 =~= server_path(b) + "/members"@);
    if server_path(a) == server_path(b) {
        assert(server_path(a).subrange(9, 45) =~= uuid_text(a));
        assert(server_path(b).subrange(9, 45) =~= uuid_text(b));
    }
    if server_path(a) + "/members"@ == server_path(b) + "/members"@ {
        assert((server_path(a) + "/members"@).subrange(0, 45) =~= server_path(a));
        assert((server_path(b) + "/members"@).subrange(0, 45) =~= server_path(b));
        assert(server_path(a).subrange(9, 45) =~= uuid_text(a));
        assert(server_path(b).subrange(9, 45) =~= uuid_text(b));
    }
    if server_path(a) + "/channels"@ == server_path(b) + "/channels"@ {
        assert((server_path(a) + "/channels"@).subrange(0, 45) =~= server_path(a));
        assert((server_path(b) + "/channels"@).subrange(0, 45) =~= server_path(b));
        assert(server_path(a).subrange(9, 45) =~= uuid_text(a));
        assert(server_path(b).subrange(9, 45) =~= uuid_text(b));
    }
}

/// Which requests carry a body, are posted, and send the access token:
/// the four that send data (creating a server, signing up, signing in and
/// refreshing the tokens) carry a JSON body; those four and joining a server
/// are posted, every other request is a GET; the token goes with every
/// request about the user's own data and none of the sign-in requests or the
/// public channel list.
pub proof fn law_route_kinds(e: Endpoint)
    ensures
        route_spec(e).3 <==> (e is CreateServer || e is Register || e is Login || e is UpdateTokens),
        route_spec(e).0 == (if route_spec(e).3 || e is JoinPublicServer { "POST"@ } else { "GET"@ }),
        route_spec(e).2 <==> !(e is GetServerChannels || e is Register || e is Login || e is UpdateTokens),
        e is UpdateTokens ==> route_spec(e) == route_spec(Endpoint::Login),
{
}

/// A header of a request.
pub struct Header {
    pub name: &'static str,
    pub value: String,
}

impl Api {
    /// The route of an endpoint below the base URL of the backend.
    pub fn route(endpoint: &Endpoint, base_url: &str) -> (res: Route)
        ensures
            res.method@ == route_spec(*endpoint).0,
            res.url@ == base_url@ + route_spec(*endpoint).1,
            res.authorized == route_spec(*endpoint).2,
            res.has_body == route_spec(*endpoint).3,
    {
        let mut url = String::from_str(base_url);
        match endpoint {
            Endpoint::GetServerChannels { server_id } => {
                url.append("/servers/");
                url.append(uuid_string(*server_id).as_str());
                url.append("/channels");
                Route { method: "GET", url, authorized: false, has_body: false }
            },
            Endpoint::GetUserServers => {
                url.append("/servers");
                Route { method: "GET", url, authorized: true, has_body: false }
            },
            Endpoint::GetPublicServers { page } => {
                url.append("/servers/public/");
                push_decimal(&mut url, *page as u64);
                Route { method: "GET", url, authorized: true, has_body: false }
            },
            Endpoint::GetMembers { server_id } => {
                url.append("/servers/");
                url.append(uuid_string(*server_id).as_str());
                url.append("/members");
                Route { method: "GET", url, authorized: true, has_body: false }
            },
            Endpoint::CreateServer => {
                url.append("/servers");
                Route { method: "POST", url, authorized: true, has_body: true }
            },
            Endpoint::GetServerById { server_id } => {
                url.append("/servers/");
                url.append(uuid_string(*server_id).as_str());
                Route { method: "GET", url, authorized: true, has_body: false }
            },
            Endpoint::JoinPublicServer { server_id } => {
                url.append("/servers/");
                url.append(uuid_string(*server_id).as_str());
                url.append("/join_public");
                Route { method: "POST", url, authorized: true, has_body: false }
            },
            Endpoint::Register => {
                url.append("/users/register");
                Route { method: "POST", url, authorized: false, has_body: true }
            },
            Endpoint::Login => {
                url.append("/users/login");
                Route { method: "POST", url, authorized: false, has_body: true }
            },
            Endpoint::UpdateTokens => {
                url.append("/users/login");
                Route { method: "POST", url, authorized: false, has_body: true }
            },
            Endpoint::GetProfile => {
                url.append("/users/me");
                Route { method: "GET", url, authorized: true, has_body: false }
            },
        }
    }

    /// Headers of a request: JSON is accepted; a body is declared as JSON;
    /// a non-empty token is sent as a bearer token.
    pub fn request_headers(has_body: bool, auth_token: Option<&str>) -> (res: Vec<Header>)
        ensures
            res@.len() == 1 + (if has_body { 1int } else { 0 }) + (match auth_token {
                Some(t) => if t@.len() > 0 { 1int } else { 0 },
                None => 0,
            }),
            res@[0].name@ == "Accept"@ && res@[0].value@ == "application/json"@,
            has_body ==> res@[1].name@ == "Content-Type"@ && res@[1].value@ == "application/json"@,
            match auth_token {
                Some(t) => t@.len() > 0 ==> res@.last().name@ == "Authorization"@
                    && res@.last().value@ == "Bearer "@ + t@,
                None => true,
            },
    {
        let mut headers: Vec<Header> = Vec::new();
        headers.push(Header { name: "Accept", value: String::from_str("application/json") });
        if has_body {
            headers.push(Header { name: "Content-Type", value: String::from_str("application/json") });
        }
        if let Some(token) = auth_token {
            if !token.is_empty() {
                let mut value = String::from_str("Bearer ");
                value.append(token);
                headers.push(Header { name: "Authorization", value });
            }
        }
        headers
    }

    /// A status in 200..=299 is a success.
    pub fn is_success(status: u16) -> (res: bool)
        ensures
            res == (200 <= status <= 299),
    {
        200 <= status && status <= 299
    }

    /// The error of a failed response: the server's `error` message when the
    /// body parsed as one, else the body text itself.
    pub fn response_error(status: u16, body: String, parsed_message: Option<String>) -> (res: ErrorInfo)
        ensures
            res.0 == status,
            res.1@ == match parsed_message {
                Some(m) => m@,
                None => body@,
            },
    {
        match parsed_message {
            Some(m) => ErrorInfo(status, m),
            None => ErrorInfo(status, body),
        }
    }
}

/// What went wrong on the client's side.
pub enum ClientFailure {
    NoWindow,
    Fetch,
    InvalidResponse,
    StreamRead,
    Utf8Decode,
    JsonDecode,
    Encode,
    DeserializeCommand,
    SenderNotInitialized,
    SendFailed,
}

/// The message of a client-side failure with the underlying error's text.
pub open spec fn failure_text(kind: ClientFailure, detail: Seq<char>) -> Seq<char> {
    match kind {
        ClientFailure::NoWindow => "No window available"@,
        ClientFailure::Fetch => "Fetch error: "@ + detail,
        ClientFailure::InvalidResponse => "Invalid response: "@ + detail,
        ClientFailure::StreamRead => "Stream read error: "@ + detail,
        ClientFailure::Utf8Decode => "UTF-8 decode error: "@ + detail,
        ClientFailure::JsonDecode => "JSON decode error: "@ + detail,
        ClientFailure::Encode => detail,
        ClientFailure::DeserializeCommand => "Failed to deserialize command: "@ + detail,
        ClientFailure::SenderNotInitialized => "WebSocket sender not initialized"@,
        ClientFailure::SendFailed => detail,
    }
}

/// The error reported for a client-side failure.
pub fn client_error(kind: ClientFailure, detail: &str) -> (res: ErrorInfo)
    ensures
        res.0 == CLIENT_ERROR_CODE,
        res.1@ == failure_text(kind, detail@),
{
    let prefix = match kind {
        ClientFailure::NoWindow => { return ErrorInfo(1, String::from_str("No window available")); },
        ClientFailure::Fetch => "Fetch error: ",
        ClientFailure::InvalidResponse => "Invalid response: ",
        ClientFailure::StreamRead => "Stream read error: ",
        ClientFailure::Utf8Decode => "UTF-8 decode error: ",
        ClientFailure::JsonDecode => "JSON decode error: ",
        ClientFailure::Encode => "",
        ClientFailure::DeserializeCommand => "Failed to deserialize command: ",
        ClientFailure::SenderNotInitialized => {
            return ErrorInfo(1, String::from_str("WebSocket sender not initialized"));
        },
        ClientFailure::SendFailed => "",
    };
    let mut msg = String::from_str(prefix);
    msg.append(detail);
    proof {
        reveal_strlit("");
    }
    ErrorInfo(1, msg)
}

/// Wraps `String::from_utf8`: std documents that it fails exactly when the
/// bytes are not valid UTF-8; the error is carried as its display text.
#[verifier::external_body]
fn string_from_utf8(bytes: Vec<u8>) -> (res: Result<String, String>)
    ensures
        match res {
            Ok(s) => valid_utf8(bytes@) && s@ == decode_utf8(bytes@),
            Err(_) => !valid_utf8(bytes@),
        },
{
    match String::from_utf8(bytes) {
        Ok(s) => Ok(s),
        Err(e) => Err(e.to_string()),
    }
}

impl Api {
    /// The text of a response body: its UTF-8 decoding, or a client-side
    /// error when the body is not UTF-8.
    pub fn response_text(body: Vec<u8>) -> (res: Result<String, ErrorInfo>)
        ensures
            valid_utf8(body@) ==> (res matches Ok(s) && s@ == decode_utf8(body@)),
            !valid_utf8(body@) ==> (res matches Err(e) && e.0 == CLIENT_ERROR_CODE
                && exists|detail: Seq<char>| e.1@ == failure_text(ClientFailure::Utf8Decode, detail)),
    {
        match string_from_utf8(body) {
            Ok(s) => Ok(s),
            Err(detail) => Err(client_error(ClientFailure::Utf8Decode, detail.as_str())),
        }
    }
}

/// What follows the first call of a command.
pub enum AfterFirstCall<T> {
    /// The command is answered with this result.
    Finish(Result<T, ErrorInfo>),
    /// The token expired: refresh it, then call again; if the refresh fails
    /// the command is answered with this error.
    RefreshThenRetry(ErrorInfo),
}

/// A success answers the command; a 401 leads to a token refresh and one
/// more call; any other error answers the command.
pub fn after_first_call<T>(res: Result<T, ErrorInfo>) -> (next: AfterFirstCall<T>)
    ensures
        match res {
            Ok(v) => next == AfterFirstCall::<T>::Finish(Ok(v)),
            Err(e) => if e.0 == UNAUTHORIZED {
                next == AfterFirstCall::<T>::RefreshThenRetry(e)
            } else {
                next == AfterFirstCall::<T>::Finish(Err(e))
            },
        },
{
    match res {
        Ok(v) => AfterFirstCall::Finish(Ok(v)),
        Err(e) => if e.0 == UNAUTHORIZED {
            AfterFirstCall::RefreshThenRetry(e)
        } else {
            AfterFirstCall::Finish(Err(e))
        },
    }
}

/// After the refresh: call again when it worked (`None`), else answer with
/// the original 401 error.
pub fn after_refresh(refreshed: bool, unauthorized: ErrorInfo) -> (res: Option<ErrorInfo>)
    ensures
        refreshed ==> res is None,
        !refreshed ==> res == Some(unauthorized),
{
    if refreshed {
        None
    } else {
        Some(unauthorized)
    }
}

/// A command runs at most twice, and twice only after a 401 and a refresh
/// that worked; the answer is then the second call's result.
pub open spec fn command_answer<T>(
    first: Result<T, ErrorInfo>,
    refreshed: bool,
    second: Result<T, ErrorInfo>,
) -> Result<T, ErrorInfo> {
    match first {
        Ok(v) => Ok(v),
        Err(e) => if e.0 == UNAUTHORIZED {
            if refreshed { second } else { Err(e) }
        } else {
            Err(e)
        },
    }
}

/// Runs the decisions of a command given what the calls return.
pub fn answer_command<T>(
    first: Result<T, ErrorInfo>,
    refreshed: bool,
    second: Result<T, ErrorInfo>,
) -> (res: Result<T, ErrorInfo>)
    ensures
        res == command_answer(first, refreshed, second),
{
    match after_first_call(first) {
        AfterFirstCall::Finish(r) => r,
        AfterFirstCall::RefreshThenRetry(e) => match after_refresh(refreshed, e) {
            None => second,
            Some(e) => Err(e),
        },
    }
}

/// Only a 401 answer leads to a second call; any other first answer is
/// final, whatever the refresh and the second call would give.
pub proof fn law_retry_only_after_unauthorized<T>(
    first: Result<T, ErrorInfo>,
    refreshed: bool,
    second: Result<T, ErrorInfo>,
    other: Result<T, ErrorInfo>,
)
    requires
        !(first matches Err(e) && e.0 == UNAUTHORIZED),
    ensures
        command_answer(first, refreshed, second) == first,
        command_answer(first, refreshed, second) == command_answer(first, refreshed, other),
{
}

/// A failed refresh answers with the 401 error of the first call.
pub proof fn law_failed_refresh_reports_first_error<T>(
    e: ErrorInfo,
    second: Result<T, ErrorInfo>,
)
    requires
        e.0 == UNAUTHORIZED,
    ensures
        command_answer::<T>(Err(e), false, second) == Err::<T, ErrorInfo>(e),
{
}

} // verus!
