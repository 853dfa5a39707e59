use muzanci_cli::debug::debug_client_tunnel::farewell;
use muzanci_cli::debug::debug_client_tunnel::run_debug_client_tunnel;
use muzanci_cli::debug::debug_client_tunnel::tunnel_exec;
use muzanci_cli::debug::debug_client_tunnel::tunnel_interactive;
use muzanci_cli::debug::debug_client_tunnel::tunnel_user;
use muzanci_cli::debug::debug_client_tunnel::DebugClientTunnelReply;
use muzanci_cli::debug::debug_client_tunnel::Purpose;
use muzanci_cli::debug::debug_client_tunnel::Tunnel;
use muzanci_cli::debug::debug_client_tunnel::TunnelEvent;
use muzanci_cli::debug::debug_client_tunnel::TunnelPhase;
use muzanci_cli::debug::debug_client_tunnel::TunnelTask;
use muzanci_cli::debug::debug_resolver::DebugResolver;
use muzanci_cli::debug::debug_resolver::DebugResolverReply;
use muzanci_cli::debug::debug_resolver::DebugResolverRequest;
use muzanci_cli::debug::debug_resolver::ResolverEvent;
use muzanci_cli::debug::debug_resolver::ResolverTask;
use muzanci_cli::debug::debug_session::check_upgrade;
use muzanci_cli::debug::debug_session::connect;
use muzanci_cli::debug::debug_session::connect_debug_client;
use muzanci_cli::debug::debug_session::connect_debug_resolver;
use muzanci_cli::debug::debug_session::session_remote;
use muzanci_cli::debug::debug_session::run_debug_session;
use muzanci_cli::debug::debug_session::Route;
use muzanci_cli::debug::debug_session::SessionEvent;
use muzanci_cli::debug::debug_session::SessionTask;
use muzanci_cli::debug::debug_session::UpgradeRequest;
use muzanci_cli::error::TError;
use muzanci_cli::signal_receiver::SignalEvent;
use muzanci_cli::signal_receiver::SignalReceiver;
use muzanci_cli::signal_receiver::SignalTask;
use muzanci_cli::ssh::client::pty_size;
use muzanci_cli::ssh::client::pty_term;
use muzanci_cli::ssh::client::run_exec_shell;
use muzanci_cli::ssh::client::run_interactive_shell;
use muzanci_cli::ssh::client::ClientHandler;
use muzanci_cli::ssh::client::ShellEvent;
use muzanci_cli::ssh::client::ShellMessage;
use muzanci_cli::ssh::client::ShellPhase;
use muzanci_cli::ssh::client::ShellProgram;
use muzanci_cli::ssh::client::ShellRun;
use muzanci_cli::ssh::client::ShellTask;

fn headers(r: &UpgradeRequest) -> Vec<(&str, &str)> {
    r.headers.iter().map(|h| (h.0.as_str(), h.1.as_str())).collect()
}

#[test]
fn upgrade_requests_name_their_endpoint() {
    let r = connect("h:1", "muzan/1");
    assert_eq!((r.method.as_str(), r.uri.as_str()), ("POST", "/debug"));
    assert_eq!(
        headers(&r),
        vec![("host", "h:1"), ("connection", "Upgrade"), ("upgrade", "muzan/1")]
    );
    let r = connect_debug_resolver("h:1", "muzan/1");
    assert_eq!(r.uri, "/debug_resolver");
    assert_eq!(headers(&r).len(), 3);
    let r = connect_debug_client("h:1", "muzan/1", "srv-9");
    assert_eq!(r.uri, "/debug_client");
    assert_eq!(
        headers(&r),
        vec![
            ("host", "h:1"),
            ("connection", "Upgrade"),
            ("upgrade", "muzan/1"),
            ("X-MUZANCI-SERVER-ID", "srv-9"),
        ]
    );
}

#[test]
fn only_switching_protocols_is_an_upgrade() {
    assert_eq!(check_upgrade(101), Ok(()));
    assert_eq!(
        check_upgrade(404),
        Err("Failed to upgrade connection. Server responded with status: 404 Not Found".to_string())
    );
    assert_eq!(
        check_upgrade(200),
        Err("Failed to upgrade connection. Server responded with status: 200 OK".to_string())
    );
    assert_eq!(
        check_upgrade(999),
        Err(
            "Failed to upgrade connection. Server responded with status: 999 <unknown status code>"
                .to_string()
        )
    );
    for status in 100..1000u16 {
        assert_eq!(check_upgrade(status).is_ok(), status == 101);
    }
}

#[test]
fn resolved_session_goes_from_resolver_to_client() {
    let mut s = run_debug_session(Route::Resolved, "muzan/1".to_string());
    assert!(s.can_take(&SessionEvent::Started));
    assert!(!s.can_take(&SessionEvent::ClientEnded));
    assert!(matches!(s.advance(SessionEvent::Started), SessionTask::FindRemote));
    match s.advance(SessionEvent::RemoteFound) {
        SessionTask::Connect(r) => {
            assert_eq!(r.uri, "/debug_resolver");
            assert_eq!(headers(&r)[0], ("host", "localhost:8002"));
        }
        _ => panic!("no resolver"),
    }
    assert!(!s.can_take(&SessionEvent::Answered { status: 99 }));
    assert!(matches!(
        s.advance(SessionEvent::Answered { status: 101 }),
        SessionTask::RunResolver { capacity: 1 }
    ));
    match s.advance(SessionEvent::Resolved { server_id: "srv".to_string() }) {
        SessionTask::Connect(r) => {
            assert_eq!(r.uri, "/debug_client");
            assert_eq!(headers(&r)[3], ("X-MUZANCI-SERVER-ID", "srv"));
        }
        _ => panic!("no client"),
    }
    assert!(matches!(s.advance(SessionEvent::Answered { status: 101 }), SessionTask::RunClient));
    assert!(matches!(s.advance(SessionEvent::ClientEnded), SessionTask::Exit { code: 0 }));
    assert!(!s.can_take(&SessionEvent::Started));
    assert_eq!(session_remote(), ("./.git", "origin"));
}

#[test]
fn direct_session_connects_at_once() {
    let mut s = run_debug_session(Route::Direct, "muzan/1".to_string());
    s.advance(SessionEvent::Started);
    match s.advance(SessionEvent::RemoteFound) {
        SessionTask::Connect(r) => assert_eq!(r.uri, "/debug"),
        _ => panic!("no client"),
    }
    match s.advance(SessionEvent::Answered { status: 503 }) {
        SessionTask::Fail(reason) => assert_eq!(
            reason,
            "Failed to upgrade connection. Server responded with status: 503 Service Unavailable"
        ),
        _ => panic!("no failure"),
    }
    assert!(!s.can_take(&SessionEvent::Answered { status: 101 }));
}

#[test]
fn resolver_asks_about_the_session_that_was_created() {
    let mut r = DebugResolver::new();
    let started: ResolverEvent<&str> = ResolverEvent::Started { capacity: 1 };
    assert!(r.can_take(&started));
    assert!(matches!(
        r.advance(started),
        ResolverTask::Send(DebugResolverRequest::CreateDebugSession { capacity: 1 })
    ));
    let created = ResolverEvent::Received(Some(DebugResolverReply::CreateDebugSession::<&str> {
        result: Ok(5),
    }));
    assert!(matches!(
        r.advance(created),
        ResolverTask::Send(DebugResolverRequest::ResolveDebugClientConfig { debug_session_id: 5 })
    ));
    let resolved = ResolverEvent::Received(Some(DebugResolverReply::ResolveDebugClientConfig {
        result: Ok("server"),
    }));
    match r.advance(resolved) {
        ResolverTask::Resolved(config) => assert_eq!(config, "server"),
        _ => panic!("not resolved"),
    }
    assert!(!r.can_take(&ResolverEvent::<&str>::Cancelled));
}

#[test]
fn resolver_fails_for_the_reason_given() {
    let events: Vec<(ResolverEvent<u8>, &str)> = vec![
        (ResolverEvent::Received(None), "Channel closed"),
        (ResolverEvent::Received(Some(DebugResolverReply::Other)), "Unexpected message type"),
        (
            ResolverEvent::Received(Some(DebugResolverReply::ResolveDebugClientConfig { result: Ok(1) })),
            "Unexpected message type",
        ),
        (
            ResolverEvent::Received(Some(DebugResolverReply::CreateDebugSession {
                result: Err("full".to_string()),
            })),
            "full",
        ),
        (ResolverEvent::Cancelled, "Cancelled"),
    ];
    for (event, text) in events {
        let mut r = DebugResolver::new();
        r.advance(ResolverEvent::<u8>::Started { capacity: 1 });
        match r.advance(event) {
            ResolverTask::Fail(error) => assert_eq!(error.message(), text),
            _ => panic!("no failure"),
        }
    }
}

fn logged_in<'a>(mut t: Tunnel<'a>) -> Tunnel<'a> {
    assert!(matches!(
        t.advance(TunnelEvent::Opened),
        TunnelTask::Connect { debug_session_id: 8 }
    ));
    let reply = DebugClientTunnelReply::ConnectDebugTunnel { result: Ok(()) };
    assert!(matches!(t.advance(TunnelEvent::Received(Some(reply))), TunnelTask::ConnectSsh));
    assert!(matches!(t.advance(TunnelEvent::SshConnected), TunnelTask::Authenticate));
    assert!(!t.can_take(&TunnelEvent::ShellEnded(Ok(0))));
    match (t.purpose, t.advance(TunnelEvent::Authenticated(true))) {
        (Purpose::Exec(cmd), TunnelTask::Run { program: ShellProgram::Command(command) }) => {
            assert_eq!(cmd, command)
        }
        (Purpose::Interactive, TunnelTask::Run { program: ShellProgram::Interactive }) => {}
        (Purpose::Detached, TunnelTask::Run { program: ShellProgram::Interactive }) => {}
        _ => panic!("nothing runs"),
    }
    t
}

#[test]
fn exec_tunnel_hands_the_exit_code_on() {
    let mut t = logged_in(tunnel_exec("make", 8));
    assert!(matches!(t.advance(TunnelEvent::ShellEnded(Ok(9))), TunnelTask::Disconnect));
    assert!(t.can_take(&TunnelEvent::Disconnected));
    assert!(matches!(
        t.advance(TunnelEvent::Disconnected),
        TunnelTask::Finish { exit_code: Some(9) }
    ));
    let mut t = logged_in(tunnel_interactive(8));
    t.advance(TunnelEvent::ShellEnded(Ok(9)));
    assert!(matches!(t.advance(TunnelEvent::Disconnected), TunnelTask::Finish { exit_code: None }));
    assert_eq!(tunnel_user(), "muzanci-debug-client-tunnel");
    assert_eq!(farewell(), ("Session ended", "en"));
}

#[test]
fn tunnel_fails_for_the_reason_given() {
    let mut t = tunnel_exec("make", 8);
    t.advance(TunnelEvent::Opened);
    match t.advance(TunnelEvent::Received(None)) {
        TunnelTask::Fail(error) => assert_eq!(error.message(), "Channel closed"),
        _ => panic!("no failure"),
    }
    assert_eq!(t.phase, TunnelPhase::Over);
    let mut t = tunnel_exec("make", 8);
    t.advance(TunnelEvent::Opened);
    match t.advance(TunnelEvent::Received(Some(DebugClientTunnelReply::Other))) {
        TunnelTask::Fail(error) => assert_eq!(error.message(), "Unexpected message type"),
        _ => panic!("no failure"),
    }
    let mut t = tunnel_exec("make", 8);
    t.advance(TunnelEvent::Opened);
    let reply = DebugClientTunnelReply::ConnectDebugTunnel { result: Ok(()) };
    t.advance(TunnelEvent::Received(Some(reply)));
    t.advance(TunnelEvent::SshConnected);
    match t.advance(TunnelEvent::Authenticated(false)) {
        TunnelTask::Fail(error) => assert_eq!(error.message(), "Authentication failed"),
        _ => panic!("no failure"),
    }
    let mut t = logged_in(tunnel_interactive(8));
    match t.advance(TunnelEvent::ShellEnded(Err("broken pipe".to_string()))) {
        TunnelTask::Fail(error) => assert_eq!(error.message(), "Shell error: broken pipe"),
        _ => panic!("no failure"),
    }
}

#[test]
fn detached_tunnel_reports_what_goes_wrong() {
    let mut t = run_debug_client_tunnel(8);
    assert!(!t.can_take(&TunnelEvent::Cancelled));
    t.advance(TunnelEvent::Opened);
    assert!(t.can_take(&TunnelEvent::Cancelled));
    match t.advance(TunnelEvent::Received(None)) {
        TunnelTask::Report(error) => assert_eq!(error.message(), "Channel closed"),
        _ => panic!("no report"),
    }
    assert!(!t.can_take(&TunnelEvent::Cancelled));
    let mut t = logged_in(run_debug_client_tunnel(8));
    assert!(matches!(t.advance(TunnelEvent::Cancelled), TunnelTask::Finish { exit_code: None }));
    let mut t = logged_in(run_debug_client_tunnel(8));
    t.advance(TunnelEvent::ShellEnded(Ok(3)));
    assert!(matches!(t.advance(TunnelEvent::Disconnected), TunnelTask::Finish { exit_code: None }));
    assert!(!logged_in(tunnel_exec("make", 8)).can_take(&TunnelEvent::Cancelled));
}

fn started_command() -> ShellRun<'static> {
    let mut s = run_exec_shell("make all");
    assert!(!s.can_take(&ShellEvent::Message(None)));
    match s.advance(ShellEvent::Opened) {
        ShellTask::Exec { command } => assert_eq!(command, "make all"),
        _ => panic!("no command"),
    }
    assert!(s.can_take(&ShellEvent::Ready));
    assert!(matches!(s.advance(ShellEvent::Ready), ShellTask::Wait));
    s
}

fn started_shell() -> ShellRun<'static> {
    let mut s = run_interactive_shell();
    assert!(matches!(s.advance(ShellEvent::Opened), ShellTask::Measure));
    assert!(!s.can_take(&ShellEvent::Ready));
    assert!(matches!(
        s.advance(ShellEvent::Measured(Some((100, 30)))),
        ShellTask::RequestPty { cols: 100, rows: 30 }
    ));
    assert!(matches!(s.advance(ShellEvent::Ready), ShellTask::RequestShell));
    assert!(matches!(s.advance(ShellEvent::Ready), ShellTask::EnterRawMode));
    assert!(matches!(s.advance(ShellEvent::Ready), ShellTask::Wait));
    assert_eq!(s.phase, ShellPhase::Run);
    s
}

#[test]
fn command_ends_with_the_last_exit_code() {
    let message = |m| ShellEvent::Message(Some(m));
    let mut s = started_command();
    match s.advance(message(ShellMessage::Data(vec![1, 2]))) {
        ShellTask::Stdout(data) => assert_eq!(data, vec![1, 2]),
        _ => panic!("no output"),
    }
    match s.advance(message(ShellMessage::ExtendedData(vec![3]))) {
        ShellTask::Stderr(data) => assert_eq!(data, vec![3]),
        _ => panic!("no error output"),
    }
    assert!(matches!(s.advance(message(ShellMessage::ExitStatus(4))), ShellTask::Wait));
    assert!(matches!(s.advance(message(ShellMessage::Other)), ShellTask::Wait));
    assert!(matches!(s.advance(ShellEvent::Interrupt(true)), ShellTask::ForwardInterrupt));
    assert!(matches!(s.advance(ShellEvent::Interrupt(false)), ShellTask::Wait));
    assert!(!s.can_take(&ShellEvent::Input(None)));
    s.advance(message(ShellMessage::ExitStatus(6)));
    assert!(matches!(
        s.advance(message(ShellMessage::Eof)),
        ShellTask::Finish { exit_code: 6, leave_raw_mode: false }
    ));
    assert!(!s.can_take(&ShellEvent::Message(None)));
}

#[test]
fn shell_leaves_the_terminal_as_it_was() {
    let mut s = started_shell();
    assert!(!s.can_take(&ShellEvent::Interrupt(true)));
    match s.advance(ShellEvent::Input(Some(vec![5]))) {
        ShellTask::SendInput(data) => assert_eq!(data, vec![5]),
        _ => panic!("no input"),
    }
    for end in [
        ShellEvent::Message(None),
        ShellEvent::Message(Some(ShellMessage::Close)),
        ShellEvent::Input(None),
    ] {
        let mut s = started_shell();
        assert!(matches!(
            s.advance(end),
            ShellTask::Finish { exit_code: 0, leave_raw_mode: true }
        ));
        assert_eq!(s.phase, ShellPhase::Over);
    }
}

#[test]
fn terminal_has_a_common_size_where_none_is_known() {
    assert_eq!(pty_size(Some((120, 50))), (120, 50));
    assert_eq!(pty_size(None), (80, 24));
    assert_eq!(pty_term(), "xterm-256color");
    assert!(ClientHandler.check_server_key());
}

#[test]
fn signals_shut_the_tool_down() {
    let mut w = SignalReceiver::new();
    assert!(w.can_take(&SignalEvent::Started));
    assert!(matches!(w.advance(SignalEvent::Started), SignalTask::InstallInterrupt));
    assert!(matches!(w.advance(SignalEvent::Installed(Ok(()))), SignalTask::InstallTerminate));
    assert!(!w.can_take(&SignalEvent::Signalled));
    assert!(matches!(w.advance(SignalEvent::Installed(Ok(()))), SignalTask::Watch));
    assert!(matches!(
        w.advance(SignalEvent::Signalled),
        SignalTask::Finish { cancel: true, result: Ok(()) }
    ));
    let mut w = SignalReceiver::new();
    assert!(matches!(
        w.advance(SignalEvent::Cancelled),
        SignalTask::Finish { cancel: false, result: Ok(()) }
    ));
}

#[test]
fn failing_handlers_shut_the_tool_down() {
    let mut w = SignalReceiver::new();
    w.advance(SignalEvent::Started);
    match w.advance(SignalEvent::Installed(Err("denied".to_string()))) {
        SignalTask::Finish { cancel, result } => {
            assert!(cancel);
            assert_eq!(
                result.unwrap_err().message(),
                "failed to install SIGINT handler: denied"
            );
        }
        _ => panic!("no end"),
    }
    let mut w = SignalReceiver::new();
    w.advance(SignalEvent::Started);
    w.advance(SignalEvent::Installed(Ok(())));
    match w.advance(SignalEvent::Installed(Err("denied".to_string()))) {
        SignalTask::Finish { cancel, result } => {
            assert!(cancel);
            assert_eq!(
                result.unwrap_err().message(),
                "failed to install SIGTERM handler: denied"
            );
        }
        _ => panic!("no end"),
    }
}

#[test]
fn errors_are_shown_with_their_trace() {
    let e = TError {
        kind: "io::Error".to_string(),
        source: "gone".to_string(),
        span_trace: "main".to_string(),
    };
    assert_eq!(e.to_string(), "[io::Error] gone\nSpan Trace:\nmain");
}
