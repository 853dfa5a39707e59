//! A tunnel to the sandbox: a channel of its own, in which an SSH session runs
//! one command or one interactive shell.

use crate::config::DebugSessionId;
use crate::debug::channel;
use crate::debug::channel::grant;
use crate::debug::channel::ChannelError;
use crate::ssh::client::ShellProgram;
use vstd::prelude::*;

verus! {

/// What a tunnel is for.
#[derive(Clone, Copy)]
pub enum Purpose<'a> {
    /// To run one command and learn its exit code.
    Exec(&'a str),
    /// To give a person a shell.
    Interactive,
    /// To give a person a shell, on its own: it is left when the tool is shut down, and
    /// whatever goes wrong is only reported.
    Detached,
}

/// A message that came from the server: the answer, or anything else.
pub enum DebugClientTunnelReply {
    ConnectDebugTunnel { result: Result<(), String> },
    Other,
}

/// What the tunnel is told.
pub enum TunnelEvent {
    /// The channel to the server is open.
    Opened,
    /// A message came from the server, or the channel was closed.
    Received(Option<DebugClientTunnelReply>),
    /// The SSH session is connected.
    SshConnected,
    /// The server has accepted the user, or not.
    Authenticated(bool),
    /// The command or the shell has ended with this exit code, or could not be run.
    ShellEnded(Result<u32, String>),
    /// The SSH session was closed, or could not be closed.
    Disconnected,
    /// The tool is being shut down.
    Cancelled,
}

/// What the tunnel waits for.
#[derive(Clone, Copy, Debug, PartialEq, Eq, Structural)]
pub enum TunnelPhase {
    Opening,
    ConnectDebugTunnel,
    ConnectSsh,
    Authenticate,
    Run,
    Disconnect { exit_code: u32 },
    Over,
}

/// Why a tunnel failed.
#[derive(Debug)]
pub enum TunnelError {
    /// The request was not answered as it should be.
    Channel(ChannelError),
    /// The server did not accept the user.
    AuthenticationFailed,
    /// The command or the shell could not be run, for the reason given.
    Shell(String),
}

/// What the tunnel wants done.
pub enum TunnelTask<'a> {
    /// Send the request to connect to this session, and report the message that
    /// comes back.
    Connect { debug_session_id: DebugSessionId },
    /// Start an SSH session over the channel.
    ConnectSsh,
    /// Log in as the tunnel's user, without a password.
    Authenticate,
    /// Run the command or the shell.
    Run { program: ShellProgram<'a> },
    /// Close the SSH session.
    Disconnect,
    /// End, with the exit code if it was asked for.
    Finish { exit_code: Option<u32> },
    /// End with an error.
    Fail(TunnelError),
    /// Report an error, and end as if there had been none.
    Report(TunnelError),
}

impl TunnelError {
    /// What went wrong, in words.
    pub open spec fn text(self) -> Seq<char> {
        match self {
            TunnelError::Channel(error) => error.text(),
            TunnelError::AuthenticationFailed => "Authentication failed"@,
            TunnelError::Shell(reason) => "Shell error: "@ + reason@,
        }
    }

    /// What went wrong, in words.
    pub fn message(&self) -> (r: String)
        ensures
            r@ == self.text(),
    {
        match self {
            TunnelError::Channel(error) => error.message(),
            TunnelError::AuthenticationFailed => "Authentication failed".to_owned(),
            TunnelError::Shell(reason) => {
                let mut r = "Shell error: ".to_owned();
                r.append(reason.as_str());
                r
            },
        }
    }
}

/// The name under which a tunnel logs in.
pub fn tunnel_user() -> (r: &'static str)
    ensures
        r@ == "muzanci-debug-client-tunnel"@,
{
    "muzanci-debug-client-tunnel"
}

/// What is said when the SSH session is closed, and in which language.
pub fn farewell() -> (r: (&'static str, &'static str))
    ensures
        r.0@ == "Session ended"@,
        r.1@ == "en"@,
{
    ("Session ended", "en")
}

/// A tunnel to a session.
pub struct Tunnel<'a> {
    pub purpose: Purpose<'a>,
    pub debug_session_id: DebugSessionId,
    pub phase: TunnelPhase,
}

/// What the answer to the request says.
pub open spec fn connected(reply: Option<DebugClientTunnelReply>) -> Result<(), ChannelError> {
    match reply {
        None => Err(ChannelError::Closed),
        Some(DebugClientTunnelReply::ConnectDebugTunnel { result }) => channel::granted(result),
        Some(_) => Err(ChannelError::Unexpected),
    }
}

/// What the answer to the request says.
pub fn connect_debug_tunnel(reply: Option<DebugClientTunnelReply>) -> (r: Result<(), ChannelError>)
    ensures
        r == connected(reply),
{
    match reply {
        None => Err(ChannelError::Closed),
        Some(DebugClientTunnelReply::ConnectDebugTunnel { result }) => grant(result),
        Some(_) => Err(ChannelError::Unexpected),
    }
}

impl<'a> Purpose<'a> {
    /// What runs in a tunnel.
    pub open spec fn runs(self) -> ShellProgram<'a> {
        match self {
            Purpose::Exec(command) => ShellProgram::Command(command),
            _ => ShellProgram::Interactive,
        }
    }

    /// What runs in a tunnel.
    pub fn program(&self) -> (r: ShellProgram<'a>)
        ensures
            r == self.runs(),
    {
        match self {
            Purpose::Exec(command) => ShellProgram::Command(command),
            _ => ShellProgram::Interactive,
        }
    }

    /// Whether the tunnel is on its own.
    pub fn is_detached(&self) -> (r: bool)
        ensures
            r == (self is Detached),
    {
        matches!(self, Purpose::Detached)
    }
}

impl<'a> Tunnel<'a> {
    /// Whether the tunnel can act on an event.
    pub open spec fn takes(self, event: TunnelEvent) -> bool {
        match event {
            TunnelEvent::Opened => self.phase == TunnelPhase::Opening,
            TunnelEvent::Received(_) => self.phase == TunnelPhase::ConnectDebugTunnel,
            TunnelEvent::SshConnected => self.phase == TunnelPhase::ConnectSsh,
            TunnelEvent::Authenticated(_) => self.phase == TunnelPhase::Authenticate,
            TunnelEvent::ShellEnded(_) => self.phase == TunnelPhase::Run,
            TunnelEvent::Disconnected => self.phase is Disconnect,
            TunnelEvent::Cancelled => self.purpose is Detached && self.phase
                != TunnelPhase::Opening && self.phase != TunnelPhase::Over,
        }
    }

    pub open spec fn at(self, phase: TunnelPhase) -> Tunnel<'a> {
        Tunnel { purpose: self.purpose, debug_session_id: self.debug_session_id, phase }
    }

    /// How the tunnel ends with an error.
    pub open spec fn failure(self, error: TunnelError) -> (Tunnel<'a>, TunnelTask<'a>) {
        (
            self.at(TunnelPhase::Over),
            if self.purpose is Detached {
                TunnelTask::Report(error)
            } else {
                TunnelTask::Fail(error)
            },
        )
    }

    /// What an event leads to.
    pub open spec fn step(self, event: TunnelEvent) -> (Tunnel<'a>, TunnelTask<'a>) {
        match event {
            TunnelEvent::Opened => (
                self.at(TunnelPhase::ConnectDebugTunnel),
                TunnelTask::Connect { debug_session_id: self.debug_session_id },
            ),
            TunnelEvent::Received(reply) => match connected(reply) {
                Ok(_) => (self.at(TunnelPhase::ConnectSsh), TunnelTask::ConnectSsh),
                Err(error) => self.failure(TunnelError::Channel(error)),
            },
            TunnelEvent::SshConnected => (
                self.at(TunnelPhase::Authenticate),
                TunnelTask::Authenticate,
            ),
            TunnelEvent::Authenticated(accepted) => if accepted {
                (self.at(TunnelPhase::Run), TunnelTask::Run { program: self.purpose.runs() })
            } else {
                self.failure(TunnelError::AuthenticationFailed)
            },
            TunnelEvent::ShellEnded(Ok(exit_code)) => (
                self.at(TunnelPhase::Disconnect { exit_code }),
                TunnelTask::Disconnect,
            ),
            TunnelEvent::ShellEnded(Err(reason)) => self.failure(TunnelError::Shell(reason)),
            TunnelEvent::Disconnected => (
                self.at(TunnelPhase::Over),
                TunnelTask::Finish {
                    exit_code: if self.purpose is Exec {
                        Some(self.phase->exit_code)
                    } else {
                        None
                    },
                },
            ),
            TunnelEvent::Cancelled => (
                self.at(TunnelPhase::Over),
                TunnelTask::Finish { exit_code: None },
            ),
        }
    }

    /// Whether the tunnel can act on an event.
    pub fn can_take(&self, event: &TunnelEvent) -> (r: bool)
        ensures
            r == self.takes(*event),
    {
        match event {
            TunnelEvent::Opened => self.phase == TunnelPhase::Opening,
            TunnelEvent::Received(_) => self.phase == TunnelPhase::ConnectDebugTunnel,
            TunnelEvent::SshConnected => self.phase == TunnelPhase::ConnectSsh,
            TunnelEvent::Authenticated(_) => self.phase == TunnelPhase::Authenticate,
            TunnelEvent::ShellEnded(_) => self.phase == TunnelPhase::Run,
            TunnelEvent::Disconnected => matches!(self.phase, TunnelPhase::Disconnect { .. }),
            TunnelEvent::Cancelled => self.purpose.is_detached() && self.phase
                != TunnelPhase::Opening && self.phase != TunnelPhase::Over,
        }
    }

    /// Ends with an error.
    fn fail(&mut self, error: TunnelError) -> (r: TunnelTask<'a>)
        ensures
            (*final(self), r) == old(self).failure(error),
    {
        self.phase = TunnelPhase::Over;
        if self.purpose.is_detached() {
            TunnelTask::Report(error)
        } else {
            TunnelTask::Fail(error)
        }
    }

    /// Acts on an event.
    pub fn advance(&mut self, event: TunnelEvent) -> (r: TunnelTask<'a>)
        requires
            old(self).takes(event),
        ensures
            (*final(self), r) == old(self).step(event),
    {
        match event {
            TunnelEvent::Opened => {
                self.phase = TunnelPhase::ConnectDebugTunnel;
                TunnelTask::Connect { debug_session_id: self.debug_session_id }
            },
            TunnelEvent::Received(reply) => match connect_debug_tunnel(reply) {
                Ok(_) => {
                    self.phase = TunnelPhase::ConnectSsh;
                    TunnelTask::ConnectSsh
                },
                Err(error) => self.fail(TunnelError::Channel(error)),
            },
            TunnelEvent::SshConnected => {
                self.phase = TunnelPhase::Authenticate;
                TunnelTask::Authenticate
            },
            TunnelEvent::Authenticated(accepted) => {
                if accepted {
                    self.phase = TunnelPhase::Run;
                    TunnelTask::Run { program: self.purpose.program() }
                } else {
                    self.fail(TunnelError::AuthenticationFailed)
                }
            },
            TunnelEvent::ShellEnded(Ok(exit_code)) => {
                self.phase = TunnelPhase::Disconnect { exit_code };
                TunnelTask::Disconnect
            },
            TunnelEvent::ShellEnded(Err(reason)) => self.fail(TunnelError::Shell(reason)),
            TunnelEvent::Disconnected => {
                let exit_code = match (self.purpose, self.phase) {
                    (Purpose::Exec(_), TunnelPhase::Disconnect { exit_code }) => Some(exit_code),
                    _ => None,
                };
                self.phase = TunnelPhase::Over;
                TunnelTask::Finish { exit_code }
            },
            TunnelEvent::Cancelled => {
                self.phase = TunnelPhase::Over;
                TunnelTask::Finish { exit_code: None }
            },
        }
    }
}

/// A tunnel that is not open yet.
pub open spec fn unopened<'a>(purpose: Purpose<'a>, debug_session_id: DebugSessionId) -> Tunnel<'a> {
    Tunnel { purpose, debug_session_id, phase: TunnelPhase::Opening }
}

/// A tunnel to run one command.
pub fn tunnel_exec<'a>(cmd: &'a str, debug_session_id: DebugSessionId) -> (r: Tunnel<'a>)
    ensures
        r == unopened(Purpose::Exec(cmd), debug_session_id),
{
    Tunnel { purpose: Purpose::Exec(cmd), debug_session_id, phase: TunnelPhase::Opening }
}

/// A tunnel to give a person a shell.
pub fn tunnel_interactive(debug_session_id: DebugSessionId) -> (r: Tunnel<'static>)
    ensures
        r == unopened(Purpose::Interactive, debug_session_id),
{
    Tunnel { purpose: Purpose::Interactive, debug_session_id, phase: TunnelPhase::Opening }
}

/// A tunnel to give a person a shell, on its own.
pub fn run_debug_client_tunnel(debug_session_id: DebugSessionId) -> (r: Tunnel<'static>)
    ensures
        r == unopened(Purpose::Detached, debug_session_id),
{
    Tunnel { purpose: Purpose::Detached, debug_session_id, phase: TunnelPhase::Opening }
}

/// The tunnel's state after these events.
pub open spec fn tunnel_after<'a>(t: Tunnel<'a>, events: Seq<TunnelEvent>) -> Tunnel<'a>
    decreases events.len(),
{
    if events.len() == 0 {
        t
    } else {
        tunnel_after(t, events.drop_last()).step(events.last()).0
    }
}

/// Whether the tunnel could act on each of these events when it came.
pub open spec fn tunnel_session<'a>(t: Tunnel<'a>, events: Seq<TunnelEvent>) -> bool
    decreases events.len(),
{
    events.len() == 0 || tunnel_session(t, events.drop_last()) && tunnel_after(
        t,
        events.drop_last(),
    ).takes(events.last())
}

spec fn tunnel_history<'a>(t: Tunnel<'a>, events: Seq<TunnelEvent>) -> bool {
    let now = tunnel_after(t, events);
    &&& now.purpose == t.purpose
    &&& now.debug_session_id == t.debug_session_id
    &&& match now.phase {
        TunnelPhase::Opening => events.len() == 0,
        TunnelPhase::ConnectDebugTunnel => events.len() == 1,
        TunnelPhase::ConnectSsh => events.len() == 2,
        TunnelPhase::Authenticate => events.len() == 3,
        TunnelPhase::Run => events.len() == 4,
        TunnelPhase::Disconnect { exit_code } => events.len() == 5 && events[4]
            == TunnelEvent::ShellEnded(Ok(exit_code)),
        TunnelPhase::Over => true,
    }
    &&& now.phase != TunnelPhase::Over ==> {
        &&& events.len() >= 2 ==> (events[1] matches TunnelEvent::Received(reply) && connected(
            reply,
        ) is Ok)
        &&& events.len() >= 4 ==> events[3] == TunnelEvent::Authenticated(true)
    }
}

proof fn tunnel_history_holds<'a>(t: Tunnel<'a>, events: Seq<TunnelEvent>)
    requires
        t.phase == TunnelPhase::Opening,
        tunnel_session(t, events),
    ensures
        tunnel_history(t, events),
    decreases events.len(),
{
    if events.len() > 0 {
        let front = events.drop_last();
        tunnel_history_holds(t, front);
        assert forall|k: int| 0 <= k < front.len() implies events[k] == front[k] by {}
        if events.len() >= 2 {
            assert(front.len() >= 2 ==> events[1] == front[1]);
        }
        if events.len() >= 4 {
            assert(front.len() >= 4 ==> events[3] == front[3]);
        }
        if events.len() >= 5 {
            assert(front.len() >= 5 ==> events[4] == front[4]);
        }
    }
}

/// Nothing runs in a tunnel before the server has connected it and accepted the
/// user, what runs is what the tunnel is for, and a tunnel that ends well, and not because the tool is shut down, ends with
/// the exit code that was reported, which is handed on where it was asked for.
pub proof fn tunnel_runs_after_login<'a>(t: Tunnel<'a>, events: Seq<TunnelEvent>)
    requires
        t.phase == TunnelPhase::Opening,
        tunnel_session(t, events),
        events.len() > 0,
    ensures
        ({
            let task = tunnel_after(t, events.drop_last()).step(events.last()).1;
            &&& task matches TunnelTask::Run { program } ==> program == t.purpose.runs()
            &&& task is Run || (task is Finish && !(events.last() is Cancelled)) ==> events.len() >= 4 && (events[1] matches
                TunnelEvent::Received(reply) && connected(reply) is Ok) && events[3]
                == TunnelEvent::Authenticated(true)
            &&& !(events.last() is Cancelled) ==> (task matches TunnelTask::Finish { exit_code }
                ==> events.len() == 6 && (events[4]
                matches TunnelEvent::ShellEnded(Ok(code)) && exit_code == (if t.purpose
                is Exec {
                Some(code)
            } else {
                None
            })))
        }),
{
    tunnel_history_holds(t, events.drop_last());
    tunnel_history_holds(t, events);
}

/// A tunnel on its own never fails: whatever happens, it goes on, reports, or ends well.
/// Any other tunnel fails where this one reports, and never reports.
pub proof fn detached_tunnel_never_fails<'a>(t: Tunnel<'a>, event: TunnelEvent)
    requires
        t.takes(event),
    ensures
        t.purpose is Detached ==> !(t.step(event).1 is Fail),
        !(t.purpose is Detached) ==> !(t.step(event).1 is Report),
        t.step(event).0.phase == TunnelPhase::Over <==> t.step(event).1 is Fail || t.step(event).1
            is Report || t.step(event).1 is Finish,
{
}

/// What runs in a tunnel is the command that it was made for, or a shell.
pub proof fn tunnels_run_what_they_are_for<'a>(cmd: &'a str)
    ensures
        Purpose::Exec(cmd).runs() == ShellProgram::Command(cmd),
        Purpose::Interactive.runs() == ShellProgram::Interactive,
        Purpose::Detached.runs() == ShellProgram::Interactive,
{
}

/// A tunnel that goes well: it asks to be connected to its own session, starts an SSH
/// session, logs in, runs what it is for, and closes the SSH session, even if that fails. It
/// ends with the exit code that was reported, which is handed on for a command alone.
pub proof fn tunnel_that_goes_well<'a>(
    purpose: Purpose<'a>,
    id: DebugSessionId,
    code: u32,
    next: TunnelEvent,
)
    ensures
        ({
            let granted = TunnelEvent::Received(
                Some(DebugClientTunnelReply::ConnectDebugTunnel { result: Ok(()) }),
            );
            let start = unopened(purpose, id);
            let (t1, a1) = start.step(TunnelEvent::Opened);
            let (t2, a2) = t1.step(granted);
            let (t3, a3) = t2.step(TunnelEvent::SshConnected);
            let (t4, a4) = t3.step(TunnelEvent::Authenticated(true));
            let (t5, a5) = t4.step(TunnelEvent::ShellEnded(Ok(code)));
            let (t6, a6) = t5.step(TunnelEvent::Disconnected);
            &&& start.takes(TunnelEvent::Opened)
            &&& a1 == (TunnelTask::Connect { debug_session_id: id })
            &&& t1.takes(granted) && a2 is ConnectSsh
            &&& t2.takes(TunnelEvent::SshConnected) && a3 is Authenticate
            &&& t3.takes(TunnelEvent::Authenticated(true))
            &&& a4 matches TunnelTask::Run { program } && match purpose {
                Purpose::Exec(cmd) => program == ShellProgram::Command(cmd),
                _ => program is Interactive,
            }
            &&& t4.takes(TunnelEvent::ShellEnded(Ok(code))) && a5 is Disconnect
            &&& t5.takes(TunnelEvent::Disconnected)
            &&& purpose is Exec ==> a6 == (TunnelTask::Finish { exit_code: Some(code) })
            &&& !(purpose is Exec) ==> a6 == (TunnelTask::Finish { exit_code: None })
            &&& !t6.takes(next)
        }),
{
}

/// A tunnel that goes wrong: a closed channel, a message that is no answer, a refusal, a
/// login that is not accepted and a program that cannot be run each end it, for that reason
/// and no other. A tunnel on its own reports the reason, and any other fails with it.
pub proof fn tunnel_that_goes_wrong<'a>(
    t: Tunnel<'a>,
    reason: String,
    next: TunnelEvent,
)
    ensures
        ({
            let refused = Some(DebugClientTunnelReply::ConnectDebugTunnel { result: Err(reason) });
            let other = Some(DebugClientTunnelReply::Other);
            let (t1, a1) = t.step(TunnelEvent::Received(None));
            let (t2, a2) = t.step(TunnelEvent::Received(other));
            let (t3, a3) = t.step(TunnelEvent::Received(refused));
            let (t4, a4) = t.step(TunnelEvent::Authenticated(false));
            let (t5, a5) = t.step(TunnelEvent::ShellEnded(Err(reason)));
            let closed = TunnelError::Channel(ChannelError::Closed);
            let wrong = TunnelError::Channel(ChannelError::Unexpected);
            let denied = TunnelError::Channel(ChannelError::Rejected(reason));
            let login = TunnelError::AuthenticationFailed;
            let broken = TunnelError::Shell(reason);
            &&& t.purpose is Detached ==> a1 == TunnelTask::Report(closed) && a2
                == TunnelTask::Report(wrong) && a3 == TunnelTask::Report(denied) && a4
                == TunnelTask::Report(login) && a5 == TunnelTask::Report(broken)
            &&& !(t.purpose is Detached) ==> a1 == TunnelTask::Fail(closed) && a2
                == TunnelTask::Fail(wrong) && a3 == TunnelTask::Fail(denied) && a4
                == TunnelTask::Fail(login) && a5 == TunnelTask::Fail(broken)
            &&& !t1.takes(next) && !t2.takes(next) && !t3.takes(next) && !t4.takes(next)
                && !t5.takes(next)
        }),
{
}

/// What a tunnel acts on: at each stage what it waits for, whatever that says. Only a tunnel
/// on its own looks out for the shutdown of the tool, from the moment at which it is open,
/// and it then ends well.
pub proof fn tunnel_acts_on_what_it_waits_for<'a>(
    t: Tunnel<'a>,
    reply: Option<DebugClientTunnelReply>,
    accepted: bool,
    ended: Result<u32, String>,
)
    ensures
        t.takes(TunnelEvent::Opened) <==> t.phase == TunnelPhase::Opening,
        t.takes(TunnelEvent::Received(reply)) <==> t.phase == TunnelPhase::ConnectDebugTunnel,
        t.takes(TunnelEvent::SshConnected) <==> t.phase == TunnelPhase::ConnectSsh,
        t.takes(TunnelEvent::Authenticated(accepted)) <==> t.phase == TunnelPhase::Authenticate,
        t.takes(TunnelEvent::ShellEnded(ended)) <==> t.phase == TunnelPhase::Run,
        t.takes(TunnelEvent::Disconnected) <==> t.phase is Disconnect,
        t.takes(TunnelEvent::Cancelled) <==> t.purpose is Detached && t.phase
            != TunnelPhase::Opening && t.phase != TunnelPhase::Over,
        t.step(TunnelEvent::Cancelled).1 == (TunnelTask::Finish { exit_code: None }),
        t.step(TunnelEvent::Cancelled).0.phase == TunnelPhase::Over,
{
}

/// Why a tunnel failed, in words.
pub proof fn tunnel_errors_in_words(error: ChannelError, reason: String)
    ensures
        TunnelError::Channel(error).text() == error.text(),
        TunnelError::AuthenticationFailed.text() == "Authentication failed"@,
        TunnelError::Shell(reason).text() == "Shell error: "@ + reason@,
{
}

} // verus!
