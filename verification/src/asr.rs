//! The speech recognition client: how a session is opened, fed and read.

use crate::config::AsrConfig;
use tokio_tungstenite::tungstenite::http::request::Builder;
use tokio_tungstenite::tungstenite::http::Request;
use vstd::prelude::*;

verus! {

broadcast use vstd::string::group_string_axioms;

// ---------------------------------------------------------------------------------------
// Responses
// ---------------------------------------------------------------------------------------

/// What a message of the server is.
#[derive(Debug, Clone, Copy, PartialEq, Eq, Structural)]
pub enum ResponseType {
    /// The task has been accepted.
    TaskStarted,
    /// The session has been accepted.
    SessionStarted,
    /// The session is over.
    SessionFinished,
    /// The speaker has begun to speak.
    VadStart,
    /// A text that may still change.
    InterimResult,
    /// A text that is settled.
    FinalResult,
    /// The server reports an error.
    Error,
    /// Anything else.
    Other,
}

/// A message of the server.
#[derive(Debug, Clone)]
pub struct AsrResponse {
    pub response_type: ResponseType,
    pub text: String,
    pub error_msg: String,
}

/// An [`AsrResponse`] by its values.
pub struct AsrResponseView {
    pub response_type: ResponseType,
    pub text: Seq<char>,
    pub error_msg: Seq<char>,
}

impl View for AsrResponse {
    type V = AsrResponseView;

    open spec fn view(&self) -> AsrResponseView {
        AsrResponseView {
            response_type: self.response_type,
            text: self.text@,
            error_msg: self.error_msg@,
        }
    }
}

// ---------------------------------------------------------------------------------------
// Errors
// ---------------------------------------------------------------------------------------

/// Why a recognition session could not be opened.
#[derive(Debug, Clone)]
pub enum AsrError {
    /// The address or a header of the connection request is not valid, for the reason given.
    InvalidRequest(String),
    /// The server refused the task.
    StartTaskFailed(String),
    /// The server refused the session.
    StartSessionFailed(String),
    /// The connection ended before the task was accepted.
    ClosedBeforeTaskStarted,
    /// The connection ended before the session was accepted.
    ClosedBeforeSessionStarted,
}

/// An [`AsrError`] by its values.
pub enum AsrErrorView {
    InvalidRequest(Seq<char>),
    StartTaskFailed(Seq<char>),
    StartSessionFailed(Seq<char>),
    ClosedBeforeTaskStarted,
    ClosedBeforeSessionStarted,
}

impl View for AsrError {
    type V = AsrErrorView;

    open spec fn view(&self) -> AsrErrorView {
        match self {
            AsrError::InvalidRequest(reason) => AsrErrorView::InvalidRequest(reason@),
            AsrError::StartTaskFailed(reason) => AsrErrorView::StartTaskFailed(reason@),
            AsrError::StartSessionFailed(reason) => AsrErrorView::StartSessionFailed(reason@),
            AsrError::ClosedBeforeTaskStarted => AsrErrorView::ClosedBeforeTaskStarted,
            AsrError::ClosedBeforeSessionStarted => AsrErrorView::ClosedBeforeSessionStarted,
        }
    }
}

/// The message of a recognition error.
pub open spec fn asr_error_message(error: AsrErrorView) -> Seq<char> {
    match error {
        AsrErrorView::InvalidRequest(reason) => reason,
        AsrErrorView::StartTaskFailed(reason) => "StartTask failed: "@ + reason,
        AsrErrorView::StartSessionFailed(reason) => "StartSession failed: "@ + reason,
        AsrErrorView::ClosedBeforeTaskStarted => "ASR WebSocket closed before TaskStarted"@,
        AsrErrorView::ClosedBeforeSessionStarted => "ASR WebSocket closed before SessionStarted"@,
    }
}

impl AsrError {
    /// The message of the error.
    pub fn message(&self) -> (r: String)
        ensures
            r@ == asr_error_message(self@),
    {
        match self {
            AsrError::InvalidRequest(reason) => reason.clone(),
            AsrError::StartTaskFailed(reason) => "StartTask failed: ".to_string().concat(
                reason.as_str(),
            ),
            AsrError::StartSessionFailed(reason) => "StartSession failed: ".to_string().concat(
                reason.as_str(),
            ),
            AsrError::ClosedBeforeTaskStarted => {
                "ASR WebSocket closed before TaskStarted".to_string()
            },
            AsrError::ClosedBeforeSessionStarted => {
                "ASR WebSocket closed before SessionStarted".to_string()
            },
        }
    }
}

// ---------------------------------------------------------------------------------------
// The connection request
// ---------------------------------------------------------------------------------------

/// The request builder of the `http` crate, known by [`draft_of`] alone.
#[verifier::external_type_specification]
#[verifier::external_body]
pub struct ExBuilder(Builder);

/// The request of the `http` crate, known by [`request_contents`] alone.
#[verifier::external_type_specification]
#[verifier::external_body]
#[verifier::reject_recursive_types(T)]
pub struct ExRequest<T>(Request<T>);

/// What a request holds: its method, its version of HTTP, its URI, and the value of each header
/// under its name in lower case.
pub struct RequestView {
    pub method: Seq<char>,
    pub version: Seq<char>,
    pub uri: Seq<char>,
    pub headers: Map<Seq<char>, Seq<char>>,
}

/// What a request builder holds so far; once it was handed a URI or a header that is not valid,
/// the text of the error.
pub uninterp spec fn draft_of(builder: Builder) -> Result<RequestView, Seq<char>>;

/// What a finished request holds.
pub uninterp spec fn request_contents(request: Request<()>) -> RequestView;

/// The URI that `Uri` of the `http` crate reads from a text, as it writes it; where the text is
/// not a URI, the text of the error.
pub uninterp spec fn uri_of(text: Seq<char>) -> Result<Seq<char>, Seq<char>>;

/// `c` may stand in the name of a header.
pub open spec fn token_char(c: char) -> bool {
    ||| 'a' <= c <= 'z'
    ||| 'A' <= c <= 'Z'
    ||| '0' <= c <= '9'
    ||| c == '!'
    ||| '#' <= c <= '\''
    ||| c == '*'
    ||| c == '+'
    ||| c == '-'
    ||| c == '.'
    ||| '^' <= c <= '`'
    ||| c == '|'
    ||| c == '~'
}

/// A name that a header can have.
pub open spec fn header_name(name: Seq<char>) -> bool {
    0 < name.len() <= 64 && forall|i: int| 0 <= i < name.len() ==> token_char(#[trigger] name[i])
}

/// A value that a header can have: no control character but the tab.
pub open spec fn header_value(value: Seq<char>) -> bool {
    forall|i: int|
        0 <= i < value.len() ==> {
            let n = #[trigger] value[i] as int;
            (n >= 32 && n != 127) || n == 9
        }
}

/// The text of the error for a header value that is not valid.
pub open spec fn invalid_header_value() -> Seq<char> {
    "failed to parse header value"@
}

/// `Request::builder` and `Builder::uri` of the `http` crate: a GET request in HTTP/1.1 for the
/// URI that `text` writes, without headers.
#[verifier::external_body]
fn start_request(text: &str) -> (r: Builder)
    ensures
        draft_of(r) == (match uri_of(text@) {
            Ok(uri) => Ok(
                RequestView {
                    method: "GET"@,
                    version: "HTTP/1.1"@,
                    uri,
                    headers: Map::empty(),
                },
            ),
            Err(reason) => Err(reason),
        }),
{
    Request::builder().uri(text)
}

/// `Builder::header` of the `http` crate, with names of up to 64 ASCII characters that the
/// builder does not hold yet, and up to a hundred of them: adds the header, with its name in
/// lower case. A value that is not valid spoils the builder, with an error of a fixed text, and
/// a builder that is spoilt stays so, with its first error.
#[verifier::external_body]
fn add_header(builder: Builder, name: &str, value: &str) -> (r: Builder)
    requires
        header_name(name@),
    ensures
        match draft_of(builder) {
            Err(_) => draft_of(r) == draft_of(builder),
            Ok(draft) => if !header_value(value@) {
                draft_of(r) matches Err(reason) && reason == invalid_header_value()
            } else {
                let lower = crate::text::ascii_lowercase(name@);
                !draft.headers.contains_key(lower) && draft.headers.len() < 100 ==> (draft_of(r)
                    matches Ok(after) && after == (RequestView {
                    headers: draft.headers.insert(lower, value@),
                    ..draft
                }))
            },
        },
{
    builder.header(name, value)
}

/// `Builder::body` of the `http` crate, with an empty body: the request that the builder
/// holds, or, where it is spoilt, its error, handed on as the text that the error displays.
#[verifier::external_body]
fn finish_request(builder: Builder) -> (r: Result<Request<()>, String>)
    ensures
        match draft_of(builder) {
            Ok(draft) => r matches Ok(request) && request_contents(request) == draft,
            Err(reason) => r matches Err(text) && text@ == reason,
        },
{
    builder.body(()).map_err(|error| error.to_string())
}

/// The headers of the connection request.
pub open spec fn handshake_headers(user_agent: Seq<char>, key: Seq<char>) -> Map<
    Seq<char>,
    Seq<char>,
> {
    map![
        "user-agent"@ => user_agent,
        "proto-version"@ => "v2"@,
        "x-custom-keepalive"@ => "true"@,
        "host"@ => "frontier-audio-ime-ws.doubao.com"@,
        "connection"@ => "Upgrade"@,
        "upgrade"@ => "websocket"@,
        "sec-websocket-version"@ => "13"@,
        "sec-websocket-key"@ => key,
    ]
}

/// The request that opens the WebSocket connection to `uri`.
pub open spec fn handshake_request(
    uri: Seq<char>,
    user_agent: Seq<char>,
    key: Seq<char>,
) -> RequestView {
    RequestView {
        method: "GET"@,
        version: "HTTP/1.1"@,
        uri,
        headers: handshake_headers(user_agent, key),
    }
}

/// The names of the handshake headers are valid, and this is how they look in lower case.
proof fn lemma_header_names()
    ensures
        header_name("User-Agent"@),
        crate::text::ascii_lowercase("User-Agent"@) == "user-agent"@,
        header_name("proto-version"@),
        crate::text::ascii_lowercase("proto-version"@) == "proto-version"@,
        header_name("x-custom-keepalive"@),
        crate::text::ascii_lowercase("x-custom-keepalive"@) == "x-custom-keepalive"@,
        header_name("Host"@),
        crate::text::ascii_lowercase("Host"@) == "host"@,
        header_name("Connection"@),
        crate::text::ascii_lowercase("Connection"@) == "connection"@,
        header_name("Upgrade"@),
        crate::text::ascii_lowercase("Upgrade"@) == "upgrade"@,
        header_name("Sec-WebSocket-Version"@),
        crate::text::ascii_lowercase("Sec-WebSocket-Version"@) == "sec-websocket-version"@,
        header_name("Sec-WebSocket-Key"@),
        crate::text::ascii_lowercase("Sec-WebSocket-Key"@) == "sec-websocket-key"@,
{
    reveal_strlit("User-Agent");
    reveal_strlit("user-agent");
    assert(crate::text::ascii_lowercase("User-Agent"@) =~= "user-agent"@);
    reveal_strlit("proto-version");
    assert(crate::text::ascii_lowercase("proto-version"@) =~= "proto-version"@);
    reveal_strlit("x-custom-keepalive");
    assert(crate::text::ascii_lowercase("x-custom-keepalive"@) =~= "x-custom-keepalive"@);
    reveal_strlit("Host");
    reveal_strlit("host");
    assert(crate::text::ascii_lowercase("Host"@) =~= "host"@);
    reveal_strlit("Connection");
    reveal_strlit("connection");
    assert(crate::text::ascii_lowercase("Connection"@) =~= "connection"@);
    reveal_strlit("Upgrade");
    reveal_strlit("upgrade");
    assert(crate::text::ascii_lowercase("Upgrade"@) =~= "upgrade"@);
    reveal_strlit("Sec-WebSocket-Version");
    reveal_strlit("sec-websocket-version");
    assert(crate::text::ascii_lowercase("Sec-WebSocket-Version"@) =~= "sec-websocket-version"@);
    reveal_strlit("Sec-WebSocket-Key");
    reveal_strlit("sec-websocket-key");
    assert(crate::text::ascii_lowercase("Sec-WebSocket-Key"@) =~= "sec-websocket-key"@);
}

/// The names of the handshake headers all differ.
proof fn lemma_header_names_differ()
    ensures
        "user-agent"@ != "connection"@,
        "user-agent"@.len() == 10,
        "proto-version"@.len() == 13,
        "x-custom-keepalive"@.len() == 18,
        "host"@.len() == 4,
        "connection"@.len() == 10,
        "upgrade"@.len() == 7,
        "sec-websocket-version"@.len() == 21,
        "sec-websocket-key"@.len() == 17,
{
    reveal_strlit("user-agent");
    reveal_strlit("proto-version");
    reveal_strlit("x-custom-keepalive");
    reveal_strlit("host");
    reveal_strlit("connection");
    reveal_strlit("upgrade");
    reveal_strlit("sec-websocket-version");
    reveal_strlit("sec-websocket-key");
    assert("user-agent"@[0] != "connection"@[0]);
}

/// The fixed values of the handshake headers are valid.
proof fn lemma_header_values()
    ensures
        header_value("v2"@),
        header_value("true"@),
        header_value("frontier-audio-ime-ws.doubao.com"@),
        header_value("Upgrade"@),
        header_value("websocket"@),
        header_value("13"@),
{
    reveal_strlit("v2");
    reveal_strlit("true");
    reveal_strlit("frontier-audio-ime-ws.doubao.com");
    reveal_strlit("Upgrade");
    reveal_strlit("websocket");
    reveal_strlit("13");
}

/// The request that opens the WebSocket connection to `url`.
pub fn connect_request(url: &str, user_agent: &str, key: &str) -> (r: Result<Request<()>, AsrError>)
    ensures
        match uri_of(url@) {
            Ok(uri) => if header_value(user_agent@) && header_value(key@) {
                r matches Ok(request) && request_contents(request) == handshake_request(
                    uri,
                    user_agent@,
                    key@,
                )
            } else {
                r matches Err(e) && e@ == AsrErrorView::InvalidRequest(invalid_header_value())
            },
            Err(reason) => r matches Err(e) && e@ == AsrErrorView::InvalidRequest(reason),
        },
{
    proof {
        lemma_header_names();
        lemma_header_names_differ();
        lemma_header_values();
    }
    let b0: Builder = start_request(url);
    let b1: Builder = add_header(b0, "User-Agent", user_agent);
    let b2: Builder = add_header(b1, "proto-version", "v2");
    let b3: Builder = add_header(b2, "x-custom-keepalive", "true");
    let b4: Builder = add_header(b3, "Host", "frontier-audio-ime-ws.doubao.com");
    let b5: Builder = add_header(b4, "Connection", "Upgrade");
    let b6: Builder = add_header(b5, "Upgrade", "websocket");
    let b7: Builder = add_header(b6, "Sec-WebSocket-Version", "13");
    let b8: Builder = add_header(b7, "Sec-WebSocket-Key", key);
    match finish_request(b8) {
        Ok(request) => Ok(request),
        Err(reason) => Err(AsrError::InvalidRequest(reason)),
    }
}

/// `c` is a character of the base 64 alphabet.
pub open spec fn base64_char(c: char) -> bool {
    ||| 'A' <= c <= 'Z'
    ||| 'a' <= c <= 'z'
    ||| '0' <= c <= '9'
    ||| c == '+'
    ||| c == '/'
}

/// A key for a WebSocket handshake: sixteen bytes in base 64.
pub open spec fn handshake_key(key: Seq<char>) -> bool {
    &&& key.len() == 24
    &&& forall|i: int| 0 <= i < 22 ==> base64_char(#[trigger] key[i])
    &&& key[21] == 'A' || key[21] == 'Q' || key[21] == 'g' || key[21] == 'w'
    &&& key[22] == '='
    &&& key[23] == '='
}

/// `generate_key` of `tungstenite`: a random key for a WebSocket handshake, of which only the
/// form is stated.
#[verifier::external_body]
fn generate_handshake_key() -> (r: String)
    ensures
        handshake_key(r@),
{
    tokio_tungstenite::tungstenite::handshake::client::generate_key()
}

/// `c` is a lower-case hexadecimal digit.
pub open spec fn hex_digit(c: char) -> bool {
    ('0' <= c <= '9') || ('a' <= c <= 'f')
}

/// A random (version 4) UUID in its hyphenated form.
pub open spec fn random_uuid(id: Seq<char>) -> bool {
    &&& id.len() == 36
    &&& forall|i: int|
        0 <= i < 36 ==> (if i == 8 || i == 13 || i == 18 || i == 23 {
            #[trigger] id[i] == '-'
        } else {
            hex_digit(id[i])
        })
    &&& id[14] == '4'
    &&& id[19] == '8' || id[19] == '9' || id[19] == 'a' || id[19] == 'b'
}

/// `Uuid::new_v4` of `uuid`, written out: a random identifier, of which only the form is
/// stated.
#[verifier::external_body]
fn new_request_id() -> (r: String)
    ensures
        random_uuid(r@),
{
    uuid::Uuid::new_v4().to_string()
}

// ---------------------------------------------------------------------------------------
// The client
// ---------------------------------------------------------------------------------------

/// What the server knows this device by.
#[derive(Debug, Clone)]
pub struct DeviceCredentials {
    pub device_id: String,
    pub token: String,
}

/// Where the recognition service is, and how the application introduces itself.
#[derive(Debug, Clone)]
pub struct AsrEndpoint {
    pub websocket_url: String,
    pub aid: String,
    pub user_agent: String,
}

/// The address of the service for a device.
pub open spec fn service_url(
    websocket_url: Seq<char>,
    aid: Seq<char>,
    device_id: Seq<char>,
) -> Seq<char> {
    websocket_url + "?aid="@ + aid + "&device_id="@ + device_id
}

/// Everything that opens a task: its identifier, the token, and the connection request.
#[derive(Debug)]
pub struct TaskRequest {
    pub request_id: String,
    pub token: String,
    pub request: Request<()>,
}

/// The prepared connection after `connection` was opened ahead too, and the one that is left
/// over: the first one stays.
pub open spec fn kept<C>(prepared: Option<C>, connection: C) -> (Option<C>, Option<C>) {
    match prepared {
        None => (Some(connection), None),
        Some(ready) => (Some(ready), Some(connection)),
    }
}

/// The prepared connection after a session has begun, and the one that the session uses; where
/// there is none, the session opens its own.
pub open spec fn taken<C>(prepared: Option<C>) -> (Option<C>, Option<C>) {
    (None, prepared)
}

/// A connection opened ahead serves the next session, and that one alone: the session after it
/// has to open its own.
pub proof fn prepared_connection_serves_one_session<C>(connection: C, another: C)
    ensures
        ({
            let (ready, left_over) = kept(None, connection);
            let (still_ready, second_left_over) = kept(ready, another);
            let (after, used) = taken(still_ready);
            &&& left_over is None
            &&& second_left_over == Some(another)
            &&& used == Some(connection)
            &&& taken(after).1 is None
        }),
{
}

/// The recognition client. It holds at most one connection of type `C` that was opened ahead
/// of its use.
#[derive(Debug)]
pub struct AsrClient<C> {
    credentials: DeviceCredentials,
    asr_config: AsrConfig,
    prepared: Option<C>,
}

impl<C> AsrClient<C> {
    /// The identifier of the device.
    pub closed spec fn device_id(self) -> Seq<char> {
        self.credentials.device_id@
    }

    /// The token of the device.
    pub closed spec fn token(self) -> Seq<char> {
        self.credentials.token@
    }

    /// The recognition settings.
    pub closed spec fn config(self) -> AsrConfig {
        self.asr_config
    }

    /// The connection that was opened ahead.
    pub closed spec fn prepared(self) -> Option<C> {
        self.prepared
    }

    /// A client without a prepared connection.
    pub fn new(credentials: DeviceCredentials, asr_config: AsrConfig) -> (r: Self)
        ensures
            r.device_id() == credentials.device_id@,
            r.token() == credentials.token@,
            r.config() == asr_config,
            r.prepared() is None,
    {
        AsrClient { credentials, asr_config, prepared: None }
    }

    /// A client with the default recognition settings.
    pub fn with_default_config(credentials: DeviceCredentials) -> (r: Self)
        ensures
            r.device_id() == credentials.device_id@,
            r.token() == credentials.token@,
            r.config() == crate::config::default_asr(),
            r.prepared() is None,
    {
        AsrClient::new(credentials, AsrConfig::default())
    }

    /// The address of the service for this device.
    pub fn ws_url(&self, endpoint: &AsrEndpoint) -> (r: String)
        ensures
            r@ == service_url(endpoint.websocket_url@, endpoint.aid@, self.device_id()),
    {
        endpoint.websocket_url.clone().concat("?aid=").concat(endpoint.aid.as_str()).concat(
            "&device_id=",
        ).concat(self.credentials.device_id.as_str())
    }

    /// The recognition settings and the identifier of the device, for the start of a session.
    pub fn session_settings(&self) -> (r: (String, AsrConfig))
        ensures
            r.0@ == self.device_id(),
            r.1 == self.config(),
    {
        (self.credentials.device_id.clone(), self.asr_config)
    }

    /// Whether a connection has to be opened to have one ready.
    pub fn warm_up(&self) -> (r: bool)
        ensures
            r == (self.prepared() is None),
    {
        self.prepared.is_none()
    }

    /// Keeps a connection that was opened ahead. Where another one is ready by now, that one
    /// stays and `connection` is handed back.
    pub fn keep(&mut self, connection: C) -> (r: Option<C>)
        ensures
            final(self).device_id() == old(self).device_id(),
            final(self).token() == old(self).token(),
            final(self).config() == old(self).config(),
            (final(self).prepared(), r) == kept(old(self).prepared(), connection),
    {
        if self.prepared.is_none() {
            self.prepared = Some(connection);
            None
        } else {
            Some(connection)
        }
    }

    /// Takes the prepared connection; without one a new connection has to be opened.
    pub fn take_or_connect(&mut self) -> (r: Option<C>)
        ensures
            (final(self).prepared(), r) == taken(old(self).prepared()),
            final(self).device_id() == old(self).device_id(),
            final(self).token() == old(self).token(),
            final(self).config() == old(self).config(),
    {
        self.prepared.take()
    }

    /// What opens a new task: a fresh identifier, the token of the device, and the request
    /// that connects to the service.
    pub fn connect_and_start_task(&self, endpoint: &AsrEndpoint) -> (r: Result<
        TaskRequest,
        AsrError,
    >)
        ensures
            match uri_of(service_url(endpoint.websocket_url@, endpoint.aid@, self.device_id())) {
                Ok(uri) => if header_value(endpoint.user_agent@) {
                    &&& r matches Ok(task)
                    &&& random_uuid(task.request_id@)
                    &&& task.token@ == self.token()
                    &&& exists|key: Seq<char>|
                        #![trigger handshake_key(key)]
                        handshake_key(key) && request_contents(task.request)
                            == handshake_request(uri, endpoint.user_agent@, key)
                } else {
                    r matches Err(e) && e@ == AsrErrorView::InvalidRequest(invalid_header_value())
                },
                Err(reason) => r matches Err(e) && e@ == AsrErrorView::InvalidRequest(reason),
            },
    {
        let url: String = self.ws_url(endpoint);
        let request_id: String = new_request_id();
        let token: String = self.credentials.token.clone();
        let key: String = generate_handshake_key();
        assert(header_value(key@));
        match connect_request(url.as_str(), endpoint.user_agent.as_str(), key.as_str()) {
            Ok(request) => {
                assert(handshake_key(key@));
                Ok(TaskRequest { request_id, token, request })
            },
            Err(error) => Err(error),
        }
    }
}

// ---------------------------------------------------------------------------------------
// Opening a task and a session
// ---------------------------------------------------------------------------------------

/// What is being opened.
#[derive(Debug, Clone, Copy, PartialEq, Eq, Structural)]
pub enum Opening {
    Task,
    Session,
}

/// What a message of the server means for what is being opened.
#[derive(Debug)]
pub enum OpeningReply {
    /// Nothing; the answer is still to come.
    Waiting,
    /// It is open.
    Started,
    /// It was refused.
    Failed(AsrError),
}

/// An [`OpeningReply`] by its values.
pub enum OpeningReplyView {
    Waiting,
    Started,
    Failed(AsrErrorView),
}

impl View for OpeningReply {
    type V = OpeningReplyView;

    open spec fn view(&self) -> OpeningReplyView {
        match self {
            OpeningReply::Waiting => OpeningReplyView::Waiting,
            OpeningReply::Started => OpeningReplyView::Started,
            OpeningReply::Failed(error) => OpeningReplyView::Failed(error@),
        }
    }
}

/// The message that accepts what is being opened.
pub open spec fn accepting(opening: Opening) -> ResponseType {
    match opening {
        Opening::Task => ResponseType::TaskStarted,
        Opening::Session => ResponseType::SessionStarted,
    }
}

/// The error of an opening that the server refuses.
pub open spec fn refused(opening: Opening, reason: Seq<char>) -> AsrErrorView {
    match opening {
        Opening::Task => AsrErrorView::StartTaskFailed(reason),
        Opening::Session => AsrErrorView::StartSessionFailed(reason),
    }
}

/// The error of an opening that the connection does not outlive.
pub open spec fn closed_before(opening: Opening) -> AsrErrorView {
    match opening {
        Opening::Task => AsrErrorView::ClosedBeforeTaskStarted,
        Opening::Session => AsrErrorView::ClosedBeforeSessionStarted,
    }
}

/// What a message of the server means for what is being opened.
pub open spec fn opening_reply(opening: Opening, response: AsrResponseView) -> OpeningReplyView {
    if response.response_type == ResponseType::Error {
        OpeningReplyView::Failed(refused(opening, response.error_msg))
    } else if response.response_type == accepting(opening) {
        OpeningReplyView::Started
    } else {
        OpeningReplyView::Waiting
    }
}

impl Opening {
    /// Takes a message of the server.
    pub fn on_response(self, response: &AsrResponse) -> (r: OpeningReply)
        ensures
            r@ == opening_reply(self, response@),
    {
        if response.response_type == ResponseType::Error {
            let reason: String = response.error_msg.clone();
            return OpeningReply::Failed(
                match self {
                    Opening::Task => AsrError::StartTaskFailed(reason),
                    Opening::Session => AsrError::StartSessionFailed(reason),
                },
            );
        }
        let started: bool = match self {
            Opening::Task => response.response_type == ResponseType::TaskStarted,
            Opening::Session => response.response_type == ResponseType::SessionStarted,
        };
        if started {
            OpeningReply::Started
        } else {
            OpeningReply::Waiting
        }
    }

    /// The connection has ended before the answer came.
    pub fn on_close(self) -> (r: AsrError)
        ensures
            r@ == closed_before(self),
    {
        match self {
            Opening::Task => AsrError::ClosedBeforeTaskStarted,
            Opening::Session => AsrError::ClosedBeforeSessionStarted,
        }
    }
}

/// How an opening ends if the server sends these messages and then closes the connection.
pub open spec fn opening_outcome(opening: Opening, responses: Seq<AsrResponseView>) -> Result<
    (),
    AsrErrorView,
>
    decreases responses.len(),
{
    if responses.len() == 0 {
        Err(closed_before(opening))
    } else {
        match opening_reply(opening, responses[0]) {
            OpeningReplyView::Started => Ok(()),
            OpeningReplyView::Failed(error) => Err(error),
            OpeningReplyView::Waiting => opening_outcome(opening, responses.drop_first()),
        }
    }
}

/// An opening succeeds exactly if the server accepts it before it reports an error.
pub proof fn opening_succeeds_if_accepted_first(opening: Opening, responses: Seq<AsrResponseView>)
    ensures
        opening_outcome(opening, responses) is Ok <==> exists|n: int|
            accepted_at(opening, responses, n),
    decreases responses.len(),
{
    if responses.len() > 0 {
        let rest = responses.drop_first();
        opening_succeeds_if_accepted_first(opening, rest);
        if opening_reply(opening, responses[0]) is Started {
            assert(accepted_at(opening, responses, 0));
        } else if opening_reply(opening, responses[0]) is Waiting {
            if opening_outcome(opening, rest) is Ok {
                let n = choose|n: int| accepted_at(opening, rest, n);
                assert forall|i: int| 0 <= i < n + 1 implies #[trigger] responses[i].response_type
                    != ResponseType::Error by {
                    if i > 0 {
                        assert(rest[i - 1] == responses[i]);
                    }
                }
                assert(rest[n] == responses[n + 1]);
                assert(accepted_at(opening, responses, n + 1));
            }
            if exists|n: int| accepted_at(opening, responses, n) {
                let n = choose|n: int| accepted_at(opening, responses, n);
                assert forall|i: int| 0 <= i < n - 1 implies #[trigger] rest[i].response_type
                    != ResponseType::Error by {
                    assert(rest[i] == responses[i + 1]);
                }
                assert(rest[n - 1] == responses[n]);
                assert(accepted_at(opening, rest, n - 1));
            }
        } else {
            assert forall|n: int| !accepted_at(opening, responses, n) by {
                if accepted_at(opening, responses, n) {
                    assert(responses[0].response_type == ResponseType::Error);
                }
            }
        }
    }
}

/// The server accepts with its `n`-th message and reports no error before that.
pub open spec fn accepted_at(opening: Opening, responses: Seq<AsrResponseView>, n: int) -> bool {
    &&& 0 <= n < responses.len()
    &&& responses[n].response_type == accepting(opening)
    &&& forall|i: int| 0 <= i < n ==> #[trigger] responses[i].response_type != ResponseType::Error
}

// ---------------------------------------------------------------------------------------
// Sending audio
// ---------------------------------------------------------------------------------------

/// The length of an audio frame, in milliseconds.
pub const FRAME_DURATION_MS: u32 = 20;

/// The length of the silent frame that ends the audio, in bytes.
pub const SILENT_FRAME_BYTES: usize = 100;

/// The place of a frame in the audio.
#[derive(Debug, Clone, Copy, PartialEq, Eq, Structural)]
pub enum FrameState {
    First,
    Middle,
    Last,
}

/// What is sent along with a frame.
#[derive(Debug, Clone, Copy, PartialEq, Eq, Structural)]
pub struct FrameHeader {
    pub state: FrameState,
    pub timestamp_ms: u64,
}

/// The time of the `index`-th frame of audio that starts at `start_ms`.
pub open spec fn frame_time(start_ms: u64, index: int) -> int {
    start_ms + index * FRAME_DURATION_MS
}

/// What is sent along with the `index`-th frame.
pub open spec fn frame_header(start_ms: u64, index: int) -> FrameHeader {
    FrameHeader {
        state: if index == 0 {
            FrameState::First
        } else {
            FrameState::Middle
        },
        timestamp_ms: frame_time(start_ms, index) as u64,
    }
}

/// What is sent along with the silent frame after `count` frames.
pub open spec fn last_header(start_ms: u64, count: int) -> FrameHeader {
    FrameHeader {
        state: FrameState::Last,
        timestamp_ms: frame_time(start_ms, count) as u64,
    }
}

/// Numbers the frames of a session.
#[derive(Debug)]
pub struct AudioSender {
    start_ms: u64,
    frame_index: u64,
}

impl AudioSender {
    /// The time of the first frame.
    pub closed spec fn start(self) -> u64 {
        self.start_ms
    }

    /// The number of frames sent so far.
    pub closed spec fn sent(self) -> u64 {
        self.frame_index
    }

    /// The time of the next frame can be told.
    pub open spec fn has_time(self) -> bool {
        frame_time(self.start(), self.sent() as int) <= u64::MAX
    }

    /// Starts with the first frame, at `start_ms` milliseconds of the wall clock.
    pub fn new(start_ms: u64) -> (r: Self)
        ensures
            r.start() == start_ms,
            r.sent() == 0,
    {
        AudioSender { start_ms, frame_index: 0 }
    }

    /// Whether the time of the next frame can be told.
    pub fn can_send(&self) -> (r: bool)
        ensures
            r == self.has_time(),
    {
        let time: u128 = self.start_ms as u128 + self.frame_index as u128
            * FRAME_DURATION_MS as u128;
        time <= u64::MAX as u128
    }

    /// The number of frames sent so far.
    pub fn frames_sent(&self) -> (r: u64)
        ensures
            r == self.sent(),
    {
        self.frame_index
    }

    /// What to send along with the next frame.
    pub fn header(&self) -> (r: FrameHeader)
        requires
            self.has_time(),
        ensures
            r == frame_header(self.start(), self.sent() as int),
    {
        FrameHeader {
            state: if self.frame_index == 0 {
                FrameState::First
            } else {
                FrameState::Middle
            },
            timestamp_ms: self.start_ms + self.frame_index * FRAME_DURATION_MS as u64,
        }
    }

    /// The next frame has been sent.
    pub fn frame_sent(&mut self)
        requires
            old(self).sent() < u64::MAX,
        ensures
            final(self).start() == old(self).start(),
            final(self).sent() == old(self).sent() + 1,
    {
        self.frame_index = self.frame_index + 1;
    }

    /// What ends the audio: a silent frame, its header, and after it the end of the session.
    /// Nothing if no frame was sent.
    pub fn finish(&self) -> (r: Option<(Vec<u8>, FrameHeader)>)
        requires
            self.has_time(),
        ensures
            if self.sent() == 0 {
                r is None
            } else {
                r matches Some((frame, header)) && frame@ == Seq::new(
                    SILENT_FRAME_BYTES as nat,
                    |i: int| 0u8,
                ) && header == last_header(self.start(), self.sent() as int)
            },
    {
        if self.frame_index == 0 {
            return None;
        }
        let mut frame: Vec<u8> = Vec::new();
        while frame.len() < SILENT_FRAME_BYTES
            invariant
                frame@.len() <= SILENT_FRAME_BYTES,
                forall|i: int| 0 <= i < frame@.len() ==> frame@[i] == 0,
            decreases SILENT_FRAME_BYTES - frame@.len(),
        {
            frame.push(0);
        }
        assert(frame@ =~= Seq::new(SILENT_FRAME_BYTES as nat, |i: int| 0u8));
        Some(
            (
                frame,
                FrameHeader {
                    state: FrameState::Last,
                    timestamp_ms: self.start_ms + self.frame_index * FRAME_DURATION_MS as u64,
                },
            ),
        )
    }
}

/// The headers of all frames of a session with `count` audio frames.
pub open spec fn session_headers(start_ms: u64, count: nat) -> Seq<FrameHeader> {
    let audio = Seq::new(count, |i: int| frame_header(start_ms, i));
    if count == 0 {
        audio
    } else {
        audio.push(last_header(start_ms, count as int))
    }
}

/// The first frame of a session, and it alone, is marked as the first; the silent frame at the
/// end, and it alone, as the last; and each frame comes 20 ms after the one before.
pub proof fn frames_are_in_order(start_ms: u64, count: nat)
    requires
        frame_time(start_ms, count as int) <= u64::MAX,
    ensures
        ({
            let headers = session_headers(start_ms, count);
            &&& headers.len() == if count == 0 {
                0
            } else {
                count + 1
            }
            &&& forall|i: int|
                0 <= i < headers.len() ==> (#[trigger] headers[i].state is First <==> i == 0)
            &&& forall|i: int|
                0 <= i < headers.len() ==> (#[trigger] headers[i].state is Last <==> i
                    == headers.len() - 1)
            &&& forall|i: int, j: int|
                0 <= i < headers.len() && j == i + 1 && j < headers.len()
                    ==> #[trigger] headers[j].timestamp_ms == #[trigger] headers[i].timestamp_ms
                    + FRAME_DURATION_MS
        }),
{
    let headers = session_headers(start_ms, count);
    assert forall|i: int| 0 <= i < headers.len() implies #[trigger] headers[i].timestamp_ms
        == frame_time(start_ms, i) by {}
}

// ---------------------------------------------------------------------------------------
// Receiving responses
// ---------------------------------------------------------------------------------------

/// The server sends nothing after this message.
pub open spec fn ends_stream(response_type: ResponseType) -> bool {
    response_type == ResponseType::Error || response_type == ResponseType::SessionFinished
}

/// Receiving goes on after a message of this type was passed on, `delivered` or not.
pub open spec fn goes_on(response_type: ResponseType, delivered: bool) -> bool {
    !ends_stream(response_type) && delivered
}

/// Whether to go on receiving after a message of this type was passed on, `delivered` or not.
/// Every message is passed on.
pub fn keeps_receiving(response_type: ResponseType, delivered: bool) -> (r: bool)
    ensures
        r == goes_on(response_type, delivered),
{
    !(response_type == ResponseType::Error || response_type == ResponseType::SessionFinished)
        && delivered
}

/// The messages that are passed on while all of them are taken.
pub open spec fn passed_on(responses: Seq<AsrResponseView>) -> Seq<AsrResponseView>
    decreases responses.len(),
{
    if responses.len() == 0 {
        Seq::empty()
    } else if ends_stream(responses[0].response_type) {
        seq![responses[0]]
    } else {
        seq![responses[0]] + passed_on(responses.drop_first())
    }
}

/// The messages are passed on in their order up to the first that ends the stream; that one is
/// passed on too, and nothing after it.
pub proof fn messages_are_passed_on_until_the_end(responses: Seq<AsrResponseView>)
    ensures
        ({
            let n = passed_on(responses).len();
            &&& n <= responses.len()
            &&& passed_on(responses) == responses.take(n as int)
            &&& n < responses.len() ==> ends_stream(responses[n - 1].response_type)
            &&& forall|i: int|
                0 <= i < n - 1 ==> !ends_stream((#[trigger] responses[i]).response_type)
            &&& responses.len() > 0 ==> n > 0
        }),
    decreases responses.len(),
{
    if responses.len() > 0 {
        let rest = responses.drop_first();
        messages_are_passed_on_until_the_end(rest);
        let n = passed_on(responses).len() as int;
        assert(passed_on(responses) =~= responses.take(n));
        if !ends_stream(responses[0].response_type) {
            assert(forall|i: int| 0 < i < responses.len() ==> #[trigger] responses[i] == rest[i
                - 1]);
        }
    }
}

// ---------------------------------------------------------------------------------------
// Laws
// ---------------------------------------------------------------------------------------

/// The frames of a session carry the time at which it started, and 20 ms more for each frame
/// before them; so does the silent frame at the end. This is plain counting from the start time,
/// whatever it is.
pub proof fn frames_carry_the_time_since_the_start(start_ms: u64, count: nat, i: int)
    requires
        start_ms + 20 * count <= u64::MAX,
        count > 0,
        0 <= i <= count,
    ensures
        session_headers(start_ms, count).len() == count + 1,
        session_headers(start_ms, count)[i].timestamp_ms == start_ms + 20 * i,
        session_headers(start_ms, count)[0].timestamp_ms == start_ms,
        i < count ==> session_headers(start_ms, count)[i] == frame_header(start_ms, i),
        session_headers(start_ms, count)[count as int] == last_header(start_ms, count as int),
        frame_header(start_ms, i).timestamp_ms == start_ms + 20 * i,
        last_header(start_ms, i).timestamp_ms == start_ms + 20 * i,
        frame_header(start_ms, i).state == (if i == 0 {
            FrameState::First
        } else {
            FrameState::Middle
        }),
        last_header(start_ms, i).state == FrameState::Last,
{
}

/// The time of a frame can be told exactly if it is no later than the clock can count.
pub proof fn frame_times_fit_the_clock(start_ms: u64, index: int)
    ensures
        frame_time(start_ms, index) == start_ms + 20 * index,
{
}

/// The address of the service is the base address and the two identifiers, each whole and under
/// its name.
pub proof fn service_url_names_both_ids(
    websocket_url: Seq<char>,
    aid: Seq<char>,
    device_id: Seq<char>,
)
    ensures
        ({
            let url = service_url(websocket_url, aid, device_id);
            let a = websocket_url.len() as int;
            let b = a + 5;
            let c = b + aid.len();
            let d = c + 11;
            &&& url.len() == d + device_id.len()
            &&& url.subrange(0, a) == websocket_url
            &&& url.subrange(a, b) == "?aid="@
            &&& url.subrange(b, c) == aid
            &&& url.subrange(c, d) == "&device_id="@
            &&& url.subrange(d, d + device_id.len()) == device_id
        }),
{
    reveal_strlit("?aid=");
    reveal_strlit("&device_id=");
    let url = service_url(websocket_url, aid, device_id);
    let a = websocket_url.len() as int;
    let c = a + 5 + aid.len();
    assert(url.subrange(0, a) =~= websocket_url);
    assert(url.subrange(a, a + 5) =~= "?aid="@);
    assert(url.subrange(a + 5, c) =~= aid);
    assert(url.subrange(c, c + 11) =~= "&device_id="@);
    assert(url.subrange(c + 11, c + 11 + device_id.len()) =~= device_id);
}

/// The connection request is a GET of the address in HTTP/1.1 with these eight headers and no
/// other, the user agent and the key among them whole.
pub proof fn handshake_request_holds_eight_headers(
    uri: Seq<char>,
    user_agent: Seq<char>,
    key: Seq<char>,
    name: Seq<char>,
)
    ensures
        ({
            let request = handshake_request(uri, user_agent, key);
            let headers = request.headers;
            &&& request.method == "GET"@
            &&& request.version == "HTTP/1.1"@
            &&& request.uri == uri
            &&& headers.contains_key(name) <==> {
                ||| name == "user-agent"@ || name == "proto-version"@
                ||| name == "x-custom-keepalive"@ || name == "host"@ || name == "connection"@
                ||| name == "upgrade"@ || name == "sec-websocket-version"@
                ||| name == "sec-websocket-key"@
            }
            &&& headers["user-agent"@] == user_agent
            &&& headers["proto-version"@] == "v2"@
            &&& headers["x-custom-keepalive"@] == "true"@
            &&& headers["host"@] == "frontier-audio-ime-ws.doubao.com"@
            &&& headers["connection"@] == "Upgrade"@
            &&& headers["upgrade"@] == "websocket"@
            &&& headers["sec-websocket-version"@] == "13"@
            &&& headers["sec-websocket-key"@] == key
        }),
{
    lemma_header_names_differ();
}

/// A task is open when the server says that it has started, and a session when the server says
/// so of the session; an error refuses either, with the reason the server gives, whole; any
/// other message is waited past, and a connection that ends too early is an error of its own.
pub proof fn openings_wait_for_their_own_answer(response: AsrResponseView)
    ensures
        opening_reply(Opening::Task, response) is Started <==> response.response_type
            == ResponseType::TaskStarted,
        opening_reply(Opening::Session, response) is Started <==> response.response_type
            == ResponseType::SessionStarted,
        response.response_type == ResponseType::Error ==> opening_reply(Opening::Task, response)
            == OpeningReplyView::Failed(AsrErrorView::StartTaskFailed(response.error_msg)),
        response.response_type == ResponseType::Error ==> opening_reply(Opening::Session, response)
            == OpeningReplyView::Failed(AsrErrorView::StartSessionFailed(response.error_msg)),
        opening_reply(Opening::Task, response) is Failed <==> response.response_type
            == ResponseType::Error,
        opening_reply(Opening::Session, response) is Failed <==> response.response_type
            == ResponseType::Error,
        closed_before(Opening::Task) == AsrErrorView::ClosedBeforeTaskStarted,
        closed_before(Opening::Session) == AsrErrorView::ClosedBeforeSessionStarted,
{
}

/// Only an error or the end of the session ends the stream of messages.
pub proof fn errors_and_the_end_end_the_stream(response_type: ResponseType)
    ensures
        ends_stream(response_type) <==> response_type is Error || response_type is SessionFinished,
{
}

/// A connection that is opened ahead is kept if none is ready, and handed back if one is; and
/// what is ready, if anything, is what the next session takes, and is then gone.
pub proof fn one_connection_is_kept<C>(ready: Option<C>, connection: C)
    ensures
        ready is None ==> kept(ready, connection) == (Some(connection), None::<C>),
        ready is Some ==> kept(ready, connection) == (ready, Some(connection)),
        taken(ready).1 == ready,
        taken(ready).0 is None,
{
}

/// The message of a recognition error holds the reason, whole.
pub proof fn recognition_error_messages(reason: Seq<char>)
    ensures
        asr_error_message(AsrErrorView::InvalidRequest(reason)) == reason,
        asr_error_message(AsrErrorView::StartTaskFailed(reason)).take(18) == "StartTask failed: "@,
        asr_error_message(AsrErrorView::StartTaskFailed(reason)).skip(18) == reason,
        asr_error_message(AsrErrorView::StartSessionFailed(reason)).take(21)
            == "StartSession failed: "@,
        asr_error_message(AsrErrorView::StartSessionFailed(reason)).skip(21) == reason,
        asr_error_message(AsrErrorView::ClosedBeforeTaskStarted)
            == "ASR WebSocket closed before TaskStarted"@,
        asr_error_message(AsrErrorView::ClosedBeforeSessionStarted)
            == "ASR WebSocket closed before SessionStarted"@,
{
    reveal_strlit("StartTask failed: ");
    reveal_strlit("StartSession failed: ");
}

/// Receiving stops at an error, at the end of the session, and when nobody takes the messages
/// any more; it goes on after every other message that was taken.
pub proof fn receiving_goes_on_while_messages_are_taken(
    response_type: ResponseType,
    delivered: bool,
)
    ensures
        !delivered ==> !goes_on(response_type, delivered),
        response_type is Error || response_type is SessionFinished ==> !goes_on(
            response_type,
            delivered,
        ),
        delivered && !(response_type is Error) && !(response_type is SessionFinished) ==> goes_on(
            response_type,
            delivered,
        ),
{
}

} // verus!
