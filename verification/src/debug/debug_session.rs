//! A debug session from its start to its end: where it connects to, and in which
//! order.

use crate::text;
use vstd::prelude::*;

verus! {

/// The server that sessions connect to.
pub fn session_hostname() -> (r: &'static str)
    ensures
        r@ == "localhost:8002"@,
{
    "localhost:8002"
}

/// Where the local repository and the name of its remote are looked for.
pub fn session_remote() -> (r: (&'static str, &'static str))
    ensures
        r.0@ == "./.git"@,
        r.1@ == "origin"@,
{
    ("./.git", "origin")
}

/// How many clients a session is for.
pub const SESSION_CAPACITY: u64 = 1;

/// A request to turn an HTTP connection into a channel of another protocol.
pub struct UpgradeRequest {
    pub method: String,
    pub uri: String,
    pub headers: Vec<(String, String)>,
}

/// A request, as mathematics has it.
#[verifier::ext_equal]
pub struct RequestHead {
    pub method: Seq<char>,
    pub uri: Seq<char>,
    pub headers: Seq<(Seq<char>, Seq<char>)>,
}

impl View for UpgradeRequest {
    type V = RequestHead;

    open spec fn view(&self) -> RequestHead {
        RequestHead {
            method: self.method@,
            uri: self.uri@,
            headers: Seq::new(
                self.headers@.len(),
                |i: int| (self.headers@[i].0@, self.headers@[i].1@),
            ),
        }
    }
}

/// The request to upgrade to `protocol` at `uri`.
pub open spec fn upgrade_head(uri: Seq<char>, hostname: Seq<char>, protocol: Seq<char>) -> RequestHead {
    RequestHead {
        method: "POST"@,
        uri,
        headers: seq![
            ("host"@, hostname),
            ("connection"@, "Upgrade"@),
            ("upgrade"@, protocol),
        ],
    }
}

/// The request of the client of a session that a server was found for: it names
/// that server.
pub open spec fn client_head(
    hostname: Seq<char>,
    protocol: Seq<char>,
    server_id: Seq<char>,
) -> RequestHead {
    let head = upgrade_head("/debug_client"@, hostname, protocol);
    RequestHead { headers: head.headers.push(("X-MUZANCI-SERVER-ID"@, server_id)), ..head }
}

/// The request to upgrade to `protocol` at `uri`.
fn upgrade_request(uri: &str, hostname: &str, protocol: &str) -> (r: UpgradeRequest)
    ensures
        r@ == upgrade_head(uri@, hostname@, protocol@),
{
    let mut headers: Vec<(String, String)> = Vec::new();
    headers.push(("host".to_owned(), hostname.to_owned()));
    headers.push(("connection".to_owned(), "Upgrade".to_owned()));
    headers.push(("upgrade".to_owned(), protocol.to_owned()));
    UpgradeRequest { method: "POST".to_owned(), uri: uri.to_owned(), headers }
}

/// The request of a client that connects without a resolver.
pub fn connect(hostname: &str, protocol: &str) -> (r: UpgradeRequest)
    ensures
        r@ == upgrade_head("/debug"@, hostname@, protocol@),
{
    upgrade_request("/debug", hostname, protocol)
}

/// The request of a resolver.
pub fn connect_debug_resolver(hostname: &str, protocol: &str) -> (r: UpgradeRequest)
    ensures
        r@ == upgrade_head("/debug_resolver"@, hostname@, protocol@),
{
    upgrade_request("/debug_resolver", hostname, protocol)
}

/// The request of the client of a session that a server was found for.
pub fn connect_debug_client(hostname: &str, protocol: &str, server_id: &str) -> (r: UpgradeRequest)
    ensures
        r@ == client_head(hostname@, protocol@, server_id@),
{
    let mut r = upgrade_request("/debug_client", hostname, protocol);
    r.headers.push(("X-MUZANCI-SERVER-ID".to_owned(), server_id.to_owned()));
    assert(r@ == client_head(hostname@, protocol@, server_id@));
    r
}

/// The phrase by which `http::StatusCode` knows a status code.
pub uninterp spec fn reason_phrase(status: u16) -> Seq<char>;

/// The text of a status code: its number and its phrase.
pub open spec fn status_name(status: u16) -> Seq<char> {
    text::decimal(status as nat) + " "@ + reason_phrase(status)
}

/// Calls `http::StatusCode::from_u16` and writes out what it returns: the number in
/// decimal digits, a space, and the phrase for that number. Status codes lie between
/// 100 and 999.
#[verifier::external_body]
fn status_text(status: u16) -> (r: String)
    requires
        100 <= status <= 999,
    ensures
        r@ == text::decimal(status as nat) + " "@ + reason_phrase(status),
{
    match http::StatusCode::from_u16(status) {
        Ok(code) => code.to_string(),
        Err(error) => error.to_string(),
    }
}

/// The status with which a server agrees to an upgrade.
pub const SWITCHING_PROTOCOLS: u16 = 101;

/// What is said when a server does not agree to an upgrade.
pub open spec fn refusal(status: Seq<char>) -> Seq<char> {
    "Failed to upgrade connection. Server responded with status: "@ + status
}

/// What is said when a server does not agree to an upgrade.
pub fn refusal_text(status: &str) -> (r: String)
    ensures
        r@ == refusal(status@),
{
    let mut r = "Failed to upgrade connection. Server responded with status: ".to_owned();
    r.append(status);
    r
}

/// Whether the server has agreed to an upgrade, or else what to say.
pub fn check_upgrade(status: u16) -> (r: Result<(), String>)
    requires
        100 <= status <= 999,
    ensures
        status == SWITCHING_PROTOCOLS ==> r is Ok,
        status != SWITCHING_PROTOCOLS ==> r is Err && r->Err_0@ == refusal(status_name(status)),
{
    if status == SWITCHING_PROTOCOLS {
        Ok(())
    } else {
        Err(refusal_text(status_text(status).as_str()))
    }
}

/// How a session finds its server.
#[derive(Clone, Copy, Debug, PartialEq, Eq, Structural)]
pub enum Route {
    /// The client connects at once.
    Direct,
    /// A resolver connects first and learns which server the client is to name.
    Resolved,
}

/// What a session waits for.
#[derive(Clone, Copy, Debug, PartialEq, Eq, Structural)]
pub enum SessionPhase {
    New,
    FindRemote,
    ConnectResolver,
    Resolve,
    ConnectClient,
    RunClient,
    Over,
}

/// What a session is told.
pub enum SessionEvent {
    Started,
    /// The repository's remote was found.
    RemoteFound,
    /// The server answered the request with this status.
    Answered { status: u16 },
    /// The resolver has found the server.
    Resolved { server_id: String },
    /// The client has ended.
    ClientEnded,
}

/// What a session wants done.
pub enum SessionTask {
    /// Find the repository's remote.
    FindRemote,
    /// Connect to the server and send this request.
    Connect(UpgradeRequest),
    /// Run the resolver, for a session of this capacity.
    RunResolver { capacity: u64 },
    /// Run the client.
    RunClient,
    /// End the process with this exit code.
    Exit { code: i32 },
    /// End with an error.
    Fail(String),
}

/// A task, as mathematics has it.
pub enum SessionTaskView {
    FindRemote,
    Connect(RequestHead),
    RunResolver { capacity: u64 },
    RunClient,
    Exit { code: i32 },
    Fail(Seq<char>),
}

impl View for SessionTask {
    type V = SessionTaskView;

    open spec fn view(&self) -> SessionTaskView {
        match self {
            SessionTask::FindRemote => SessionTaskView::FindRemote,
            SessionTask::Connect(request) => SessionTaskView::Connect(request@),
            SessionTask::RunResolver { capacity } => {
                SessionTaskView::RunResolver { capacity: *capacity }
            },
            SessionTask::RunClient => SessionTaskView::RunClient,
            SessionTask::Exit { code } => SessionTaskView::Exit { code: *code },
            SessionTask::Fail(reason) => SessionTaskView::Fail(reason@),
        }
    }
}

/// Whether a session in this phase can act on an event.
pub open spec fn session_takes(phase: SessionPhase, event: SessionEvent) -> bool {
    match event {
        SessionEvent::Started => phase == SessionPhase::New,
        SessionEvent::RemoteFound => phase == SessionPhase::FindRemote,
        SessionEvent::Answered { status } => (phase == SessionPhase::ConnectResolver || phase
            == SessionPhase::ConnectClient) && 100 <= status <= 999,
        SessionEvent::Resolved { .. } => phase == SessionPhase::Resolve,
        SessionEvent::ClientEnded => phase == SessionPhase::RunClient,
    }
}

/// What an event leads to.
pub open spec fn session_step(
    route: Route,
    protocol: Seq<char>,
    phase: SessionPhase,
    event: SessionEvent,
) -> (SessionPhase, SessionTaskView) {
    let hostname = "localhost:8002"@;
    match event {
        SessionEvent::Started => (SessionPhase::FindRemote, SessionTaskView::FindRemote),
        SessionEvent::RemoteFound => match route {
            Route::Direct => (
                SessionPhase::ConnectClient,
                SessionTaskView::Connect(upgrade_head("/debug"@, hostname, protocol)),
            ),
            Route::Resolved => (
                SessionPhase::ConnectResolver,
                SessionTaskView::Connect(upgrade_head("/debug_resolver"@, hostname, protocol)),
            ),
        },
        SessionEvent::Answered { status } => if status != SWITCHING_PROTOCOLS {
            (SessionPhase::Over, SessionTaskView::Fail(refusal(status_name(status))))
        } else if phase == SessionPhase::ConnectResolver {
            (SessionPhase::Resolve, SessionTaskView::RunResolver { capacity: SESSION_CAPACITY })
        } else {
            (SessionPhase::RunClient, SessionTaskView::RunClient)
        },
        SessionEvent::Resolved { server_id } => (
            SessionPhase::ConnectClient,
            SessionTaskView::Connect(client_head(hostname, protocol, server_id@)),
        ),
        SessionEvent::ClientEnded => (SessionPhase::Over, SessionTaskView::Exit { code: 0 }),
    }
}

/// A debug session.
pub struct DebugSession {
    pub route: Route,
    pub protocol: String,
    pub phase: SessionPhase,
}

/// Starts a session, over connections that speak `protocol`.
pub fn run_debug_session(route: Route, protocol: String) -> (r: DebugSession)
    ensures
        r == (DebugSession { route, protocol, phase: SessionPhase::New }),
{
    DebugSession { route, protocol, phase: SessionPhase::New }
}

impl DebugSession {
    /// Whether the session can act on an event.
    pub fn can_take(&self, event: &SessionEvent) -> (r: bool)
        ensures
            r == session_takes(self.phase, *event),
    {
        match event {
            SessionEvent::Started => self.phase == SessionPhase::New,
            SessionEvent::RemoteFound => self.phase == SessionPhase::FindRemote,
            SessionEvent::Answered { status } => (self.phase == SessionPhase::ConnectResolver
                || self.phase == SessionPhase::ConnectClient) && 100 <= *status && *status <= 999,
            SessionEvent::Resolved { .. } => self.phase == SessionPhase::Resolve,
            SessionEvent::ClientEnded => self.phase == SessionPhase::RunClient,
        }
    }

    /// Acts on an event.
    pub fn advance(&mut self, event: SessionEvent) -> (r: SessionTask)
        requires
            session_takes(old(self).phase, event),
        ensures
            final(self).route == old(self).route,
            final(self).protocol == old(self).protocol,
            (final(self).phase, r@) == session_step(
                old(self).route,
                old(self).protocol@,
                old(self).phase,
                event,
            ),
    {
        match event {
            SessionEvent::Started => {
                self.phase = SessionPhase::FindRemote;
                SessionTask::FindRemote
            },
            SessionEvent::RemoteFound => match self.route {
                Route::Direct => {
                    self.phase = SessionPhase::ConnectClient;
                    SessionTask::Connect(connect(session_hostname(), self.protocol.as_str()))
                },
                Route::Resolved => {
                    self.phase = SessionPhase::ConnectResolver;
                    SessionTask::Connect(
                        connect_debug_resolver(session_hostname(), self.protocol.as_str()),
                    )
                },
            },
            SessionEvent::Answered { status } => match check_upgrade(status) {
                Err(reason) => {
                    self.phase = SessionPhase::Over;
                    SessionTask::Fail(reason)
                },
                Ok(_) => {
                    if self.phase == SessionPhase::ConnectResolver {
                        self.phase = SessionPhase::Resolve;
                        SessionTask::RunResolver { capacity: SESSION_CAPACITY }
                    } else {
                        self.phase = SessionPhase::RunClient;
                        SessionTask::RunClient
                    }
                },
            },
            SessionEvent::Resolved { server_id } => {
                self.phase = SessionPhase::ConnectClient;
                SessionTask::Connect(
                    connect_debug_client(
                        session_hostname(),
                        self.protocol.as_str(),
                        server_id.as_str(),
                    ),
                )
            },
            SessionEvent::ClientEnded => {
                self.phase = SessionPhase::Over;
                SessionTask::Exit { code: 0 }
            },
        }
    }
}

/// A server that answers with anything but the agreement to upgrade ends the session:
/// neither resolver nor client runs, and no event is acted on any more.
pub proof fn refused_upgrade_ends_session(
    route: Route,
    protocol: Seq<char>,
    phase: SessionPhase,
    status: u16,
    next: SessionEvent,
)
    requires
        session_takes(phase, SessionEvent::Answered { status }),
    ensures
        ({
            let (after, task) = session_step(
                route,
                protocol,
                phase,
                SessionEvent::Answered { status },
            );
            &&& status != SWITCHING_PROTOCOLS ==> task == SessionTaskView::Fail(
                refusal(status_name(status)),
            ) && !session_takes(after, next)
            &&& status == SWITCHING_PROTOCOLS ==> (task is RunResolver || task is RunClient)
        }),
{
}

/// In a session with a resolver, the client names the server that the resolver has
/// found.
pub proof fn client_names_resolved_server(protocol: Seq<char>, server_id: String)
    ensures
        ({
            let r = Route::Resolved;
            let (p1, t1) = session_step(r, protocol, SessionPhase::New, SessionEvent::Started);
            let (p2, t2) = session_step(r, protocol, p1, SessionEvent::RemoteFound);
            let (p3, t3) = session_step(r, protocol, p2, SessionEvent::Answered { status: 101 });
            let (p4, t4) = session_step(r, protocol, p3, SessionEvent::Resolved { server_id });
            let (p5, t5) = session_step(r, protocol, p4, SessionEvent::Answered { status: 101 });
            let (p6, t6) = session_step(r, protocol, p5, SessionEvent::ClientEnded);
            &&& t2 matches SessionTaskView::Connect(head) && head.uri == "/debug_resolver"@
            &&& t3 == SessionTaskView::RunResolver { capacity: 1 }
            &&& t4 matches SessionTaskView::Connect(head) && head.uri == "/debug_client"@
                && head.headers.last() == ("X-MUZANCI-SERVER-ID"@, server_id@)
            &&& t5 is RunClient
            &&& t6 == SessionTaskView::Exit { code: 0 }
        }),
{
}

/// Every request that a session sends, on either route and for resolver and client alike,
/// is a POST to the server's own host name that asks to upgrade to the protocol that the
/// session was started with. A request is sent when the remote is found, to the end point
/// of the route, and when a server is resolved, to the end point of clients, with that
/// server's identifier; at no other time.
pub proof fn every_request_asks_for_the_protocol(
    route: Route,
    protocol: Seq<char>,
    phase: SessionPhase,
    event: SessionEvent,
)
    requires
        session_takes(phase, event),
    ensures
        ({
            let task = session_step(route, protocol, phase, event).1;
            &&& task matches SessionTaskView::Connect(head) ==> {
                &&& head.method == "POST"@
                &&& head.headers.len() >= 3
                &&& head.headers[0] == ("host"@, "localhost:8002"@)
                &&& head.headers[1] == ("connection"@, "Upgrade"@)
                &&& head.headers[2] == ("upgrade"@, protocol)
            }
            &&& task is Connect <==> event is RemoteFound || event is Resolved
            &&& event is RemoteFound ==> (task matches SessionTaskView::Connect(head)
                && head.headers.len() == 3 && head.uri == match route {
                Route::Direct => "/debug"@,
                Route::Resolved => "/debug_resolver"@,
            })
            &&& event matches SessionEvent::Resolved { server_id } ==> (
            task matches SessionTaskView::Connect(head) && head.headers.len() == 4 && head.uri
                == "/debug_client"@ && head.headers[3] == ("X-MUZANCI-SERVER-ID"@, server_id@))
        }),
{
}

/// The requests that connect, each for itself: a POST to its end point, with the host, the
/// wish to upgrade and the protocol, and for the client of a resolved session the server.
pub proof fn requests_are_made_of_what_is_given(
    uri: Seq<char>,
    hostname: Seq<char>,
    protocol: Seq<char>,
    server_id: Seq<char>,
)
    ensures
        ({
            let head = upgrade_head(uri, hostname, protocol);
            &&& head.method == "POST"@
            &&& head.uri == uri
            &&& head.headers.len() == 3
            &&& head.headers[0] == ("host"@, hostname)
            &&& head.headers[1] == ("connection"@, "Upgrade"@)
            &&& head.headers[2] == ("upgrade"@, protocol)
        }),
        ({
            let head = client_head(hostname, protocol, server_id);
            &&& head.method == "POST"@
            &&& head.uri == "/debug_client"@
            &&& head.headers.len() == 4
            &&& head.headers[0] == ("host"@, hostname)
            &&& head.headers[1] == ("connection"@, "Upgrade"@)
            &&& head.headers[2] == ("upgrade"@, protocol)
            &&& head.headers[3] == ("X-MUZANCI-SERVER-ID"@, server_id)
        }),
{
}

/// A request and a task are looked at as they are: nothing is left out, added or moved.
pub proof fn requests_are_seen_as_they_are(request: UpgradeRequest, task: SessionTask)
    ensures
        request@.method == request.method@,
        request@.uri == request.uri@,
        request@.headers.len() == request.headers@.len(),
        forall|i: int|
            0 <= i < request.headers@.len() ==> #[trigger] request@.headers[i] == (
                request.headers@[i].0@,
                request.headers@[i].1@,
            ),
        task is FindRemote <==> task@ is FindRemote,
        task is RunClient <==> task@ is RunClient,
        task matches SessionTask::Connect(r) ==> task@ == SessionTaskView::Connect(r@),
        task matches SessionTask::RunResolver { capacity } ==> task@
            == (SessionTaskView::RunResolver { capacity }),
        task matches SessionTask::Exit { code } ==> task@ == (SessionTaskView::Exit { code }),
        task matches SessionTask::Fail(reason) ==> task@ == SessionTaskView::Fail(reason@),
{
}

/// What a session waits for after these events.
pub open spec fn session_after(
    route: Route,
    protocol: Seq<char>,
    events: Seq<SessionEvent>,
) -> SessionPhase
    decreases events.len(),
{
    if events.len() == 0 {
        SessionPhase::New
    } else {
        session_step(
            route,
            protocol,
            session_after(route, protocol, events.drop_last()),
            events.last(),
        ).0
    }
}

/// Whether a session could act on each of these events when it came.
pub open spec fn session_accepts(
    route: Route,
    protocol: Seq<char>,
    events: Seq<SessionEvent>,
) -> bool
    decreases events.len(),
{
    events.len() == 0 || session_accepts(route, protocol, events.drop_last()) && session_takes(
        session_after(route, protocol, events.drop_last()),
        events.last(),
    )
}

/// What the last event made a session ask for.
pub open spec fn last_session_task(
    route: Route,
    protocol: Seq<char>,
    events: Seq<SessionEvent>,
) -> SessionTaskView {
    session_step(
        route,
        protocol,
        session_after(route, protocol, events.drop_last()),
        events.last(),
    ).1
}

/// Whether an event is an answer, with a status that there is.
pub open spec fn is_answer(event: SessionEvent) -> bool {
    event matches SessionEvent::Answered { status } && 100 <= status <= 999
}

/// Whether an event is an answer that agrees to the upgrade.
pub open spec fn is_agreement(event: SessionEvent) -> bool {
    event matches SessionEvent::Answered { status } && status == 101
}

/// The event that comes after `n` others in a session that goes well, and whether the one
/// given is of that sort.
pub open spec fn is_due(route: Route, n: nat, event: SessionEvent) -> bool {
    if n == 0 {
        event is Started
    } else if n == 1 {
        event is RemoteFound
    } else if n == 2 {
        is_answer(event)
    } else if route == Route::Direct {
        n == 3 && event is ClientEnded
    } else if n == 3 {
        event is Resolved
    } else if n == 4 {
        is_answer(event)
    } else {
        n == 5 && event is ClientEnded
    }
}

proof fn session_history(route: Route, protocol: Seq<char>, events: Seq<SessionEvent>)
    requires
        session_accepts(route, protocol, events),
    ensures
        ({
            let n = events.len();
            match session_after(route, protocol, events) {
                SessionPhase::New => n == 0,
                SessionPhase::FindRemote => n == 1,
                SessionPhase::ConnectResolver => n == 2 && route == Route::Resolved,
                SessionPhase::Resolve => n == 3 && route == Route::Resolved,
                SessionPhase::ConnectClient => n == (if route == Route::Direct {
                    2nat
                } else {
                    4nat
                }),
                SessionPhase::RunClient => n == (if route == Route::Direct {
                    3nat
                } else {
                    5nat
                }),
                SessionPhase::Over => n > 0 && ((events.last() is ClientEnded && n == (
                if route == Route::Direct {
                    4nat
                } else {
                    6nat
                })) || (is_answer(events.last()) && !is_agreement(events.last()))),
            }
        }),
    decreases events.len(),
{
    if events.len() > 0 {
        session_history(route, protocol, events.drop_last());
    }
}

/// A session has one course. Directly: it starts, finds the remote, connects and runs the
/// client. With a resolver: it starts, finds the remote, connects and runs the resolver for
/// one client, connects and runs the client. It acts on the event that is due and on no
/// other, it ends with exit code zero when the client has ended, and it ends early if and
/// only if a server does not agree to an upgrade, which it then says with the status.
pub proof fn session_has_one_course(
    route: Route,
    protocol: Seq<char>,
    events: Seq<SessionEvent>,
    event: SessionEvent,
)
    requires
        session_accepts(route, protocol, events),
        events.len() > 0 ==> !(is_answer(events.last()) && !is_agreement(events.last())),
    ensures
        ({
            let n = events.len();
            let more = events.push(event);
            let task = last_session_task(route, protocol, more);
            &&& session_accepts(route, protocol, more) <==> is_due(route, n, event)
            &&& session_accepts(route, protocol, more) ==> match event {
                SessionEvent::Started => task is FindRemote,
                SessionEvent::RemoteFound => task is Connect,
                SessionEvent::Answered { status } => if status != 101 {
                    task == SessionTaskView::Fail(
                        "Failed to upgrade connection. Server responded with status: "@ + (
                        text::decimal(status as nat) + " "@ + reason_phrase(status)),
                    )
                } else if route == Route::Resolved && n == 2 {
                    task == SessionTaskView::RunResolver { capacity: 1 }
                } else {
                    task is RunClient
                },
                SessionEvent::Resolved { .. } => task is Connect,
                SessionEvent::ClientEnded => task == SessionTaskView::Exit { code: 0 },
            }
        }),
{
    session_history(route, protocol, events);
    let more = events.push(event);
    assert(more.drop_last() == events);
    assert(more.last() == event);
}

} // verus!
