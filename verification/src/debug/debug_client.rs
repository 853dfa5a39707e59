//! The client of a debug session: it has a sandbox made, brings the local changes
//! there, and then does what is typed at the debugger's prompt. Everything that it
//! waits for comes in as an event, and everything that it wants done goes out as a
//! task.

use crate::config::DebugSessionId;
use crate::config::GitRemote;
use crate::config::JobConfig;
use crate::config::StepConfig;
use crate::debug::channel;
use crate::debug::channel::grant;
use crate::debug::channel::ChannelError;
use crate::debug::checksum;
use crate::debug::checksum::Checksum;
use crate::debug::debugger;
use crate::debug::debugger::Activity;
use crate::debug::debugger::Debugger;
use crate::debug::debugger::DebuggerTask;
use crate::debug::debugger::DebuggerView;
use vstd::prelude::*;

verus! {

/// How many bytes of the local changes are read at a time, at most.
pub const CHUNK_SIZE: usize = 1_048_576;

/// What a debug session is about.
pub struct DebugTarget<I, S> {
    pub debug_session_id: DebugSessionId,
    pub remote: GitRemote,
    pub job: JobConfig<I, S>,
}

/// What the client asks of the server.
pub enum DebugClientRequest<'a, I, S> {
    ConnectDebugClient { debug_session_id: DebugSessionId },
    CreateSandbox { image: &'a I },
    CheckoutBranch { url: String, branch: String },
    StartDiffUpload,
    UploadDiffChunk { chunk: Vec<u8> },
    CompleteDiffUpload { checksum: String },
    ApplyDiff,
    StartShell { step: &'a StepConfig<S> },
}

/// A message that came from the server: an answer, or anything else.
pub enum DebugClientReply {
    ConnectDebugClient { result: Result<(), String> },
    CreateSandbox { result: Result<(), String> },
    CheckoutBranch { result: Result<(), String> },
    StartDiffUpload { result: Result<(), String> },
    UploadDiffChunk { result: Result<(), String> },
    CompleteDiffUpload { result: Result<(), String> },
    ApplyDiff { result: Result<(), String> },
    StartShell { result: Result<(), String> },
    Other,
}

/// What the client waits for.
#[derive(Clone, Copy, Debug, PartialEq, Eq, Structural)]
pub enum Phase {
    /// The start.
    New,
    /// The answer to the request of that name.
    ConnectDebugClient,
    CreateSandbox,
    CheckoutBranch,
    /// The local changes, written to a file.
    CreateDiff,
    StartDiffUpload,
    /// The next chunk of that file.
    ReadDiff,
    UploadDiffChunk,
    CompleteDiffUpload,
    ApplyDiff,
    /// A line typed at the prompt.
    Control,
    /// The answer to the request for the shell in which a step will run.
    StartCommand,
    /// The end of that step.
    RunCommand,
    /// The answer to the request for the shell that a person will use.
    StartShell,
    /// The end of that shell.
    RunShell,
    /// Nothing: the debugger was left, or the tool is being shut down.
    Done,
    /// Nothing: something went wrong.
    Failed,
}

/// What the client is told.
pub enum ClientEvent {
    /// The channel to the server is open.
    Started,
    /// A message came from the server, or the channel was closed.
    Received(Option<DebugClientReply>),
    /// The local changes are in a file.
    DiffCreated,
    /// The next bytes of that file, `CHUNK_SIZE` of them at most, or none at its end.
    Chunk(Vec<u8>),
    /// A line was typed.
    Line(String),
    /// The step ended with this exit code.
    Exited(u32),
    /// The shell was left.
    ShellClosed,
    /// What was asked for last could not be done, for the reason given.
    Broken(String),
    /// The tool is being shut down.
    Cancelled,
}

/// Why a session ended early.
#[derive(Debug)]
pub enum ClientError {
    /// A request was not answered as it should be.
    Channel(ChannelError),
    /// There is nothing to make the checksum of the local changes with.
    NoDiffHasher,
    /// Something could not be done, for the reason given.
    Broken(String),
}

impl ClientError {
    /// What went wrong, in words.
    pub open spec fn text(self) -> Seq<char> {
        match self {
            ClientError::Channel(error) => error.text(),
            ClientError::NoDiffHasher => "No diff hasher"@,
            ClientError::Broken(reason) => reason@,
        }
    }

    /// What went wrong, in words.
    pub fn message(&self) -> (r: String)
        ensures
            r@ == self.text(),
    {
        match self {
            ClientError::Channel(error) => error.message(),
            ClientError::NoDiffHasher => "No diff hasher".to_owned(),
            ClientError::Broken(reason) => reason.clone(),
        }
    }
}

/// What the client wants done.
pub enum ClientTask<'a, I, S> {
    /// Send this, and report the message that comes back.
    Send(DebugClientRequest<'a, I, S>),
    /// Write what differs from the branch to a file.
    CreateDiff,
    /// Read the next chunk of that file.
    ReadChunk,
    /// Read a line.
    ReadLine,
    /// Run this command in the sandbox.
    RunCommand { command: &'a String },
    /// Connect the terminal to a shell in the sandbox.
    RunShell,
    /// End the session.
    Finish,
    /// Report this error, and end the session as if there had been none.
    Report(ClientError),
}

/// A text to print, and then a task.
pub struct ClientAction<'a, I, S> {
    pub text: String,
    pub task: ClientTask<'a, I, S>,
}

/// A request, as mathematics has it.
pub enum RequestView<I, S> {
    ConnectDebugClient { debug_session_id: DebugSessionId },
    CreateSandbox { image: I },
    CheckoutBranch { url: Seq<char>, branch: Seq<char> },
    StartDiffUpload,
    UploadDiffChunk { chunk: Seq<u8> },
    CompleteDiffUpload { checksum: Seq<char> },
    ApplyDiff,
    StartShell { step: StepConfig<S> },
}

impl<'a, I, S> View for DebugClientRequest<'a, I, S> {
    type V = RequestView<I, S>;

    open spec fn view(&self) -> RequestView<I, S> {
        match self {
            DebugClientRequest::ConnectDebugClient { debug_session_id } => {
                RequestView::ConnectDebugClient { debug_session_id: *debug_session_id }
            },
            DebugClientRequest::CreateSandbox { image } => {
                RequestView::CreateSandbox { image: **image }
            },
            DebugClientRequest::CheckoutBranch { url, branch } => {
                RequestView::CheckoutBranch { url: url@, branch: branch@ }
            },
            DebugClientRequest::StartDiffUpload => RequestView::StartDiffUpload,
            DebugClientRequest::UploadDiffChunk { chunk } => {
                RequestView::UploadDiffChunk { chunk: chunk@ }
            },
            DebugClientRequest::CompleteDiffUpload { checksum } => {
                RequestView::CompleteDiffUpload { checksum: checksum@ }
            },
            DebugClientRequest::ApplyDiff => RequestView::ApplyDiff,
            DebugClientRequest::StartShell { step } => RequestView::StartShell { step: **step },
        }
    }
}

/// A task, as mathematics has it.
pub enum TaskView<I, S> {
    Send(RequestView<I, S>),
    CreateDiff,
    ReadChunk,
    ReadLine,
    RunCommand { command: Seq<char> },
    RunShell,
    Finish,
    Report(ClientError),
}

impl<'a, I, S> View for ClientTask<'a, I, S> {
    type V = TaskView<I, S>;

    open spec fn view(&self) -> TaskView<I, S> {
        match self {
            ClientTask::Send(request) => TaskView::Send(request@),
            ClientTask::CreateDiff => TaskView::CreateDiff,
            ClientTask::ReadChunk => TaskView::ReadChunk,
            ClientTask::ReadLine => TaskView::ReadLine,
            ClientTask::RunCommand { command } => TaskView::RunCommand { command: command@ },
            ClientTask::RunShell => TaskView::RunShell,
            ClientTask::Finish => TaskView::Finish,
            ClientTask::Report(error) => TaskView::Report(*error),
        }
    }
}

/// Whether the client waits for an answer.
pub open spec fn awaits_reply(phase: Phase) -> bool {
    match phase {
        Phase::ConnectDebugClient => true,
        Phase::CreateSandbox => true,
        Phase::CheckoutBranch => true,
        Phase::StartDiffUpload => true,
        Phase::UploadDiffChunk => true,
        Phase::CompleteDiffUpload => true,
        Phase::ApplyDiff => true,
        Phase::StartCommand => true,
        Phase::StartShell => true,
        _ => false,
    }
}

/// What came back, to a client that waits for the answer that its phase names.
pub open spec fn answer(phase: Phase, reply: Option<DebugClientReply>) -> Result<(), ChannelError> {
    match (phase, reply) {
        (_, None) => Err(ChannelError::Closed),
        (
            Phase::ConnectDebugClient,
            Some(DebugClientReply::ConnectDebugClient { result }),
        ) => channel::granted(result),
        (
            Phase::CreateSandbox,
            Some(DebugClientReply::CreateSandbox { result }),
        ) => channel::granted(result),
        (
            Phase::CheckoutBranch,
            Some(DebugClientReply::CheckoutBranch { result }),
        ) => channel::granted(result),
        (
            Phase::StartDiffUpload,
            Some(DebugClientReply::StartDiffUpload { result }),
        ) => channel::granted(result),
        (
            Phase::UploadDiffChunk,
            Some(DebugClientReply::UploadDiffChunk { result }),
        ) => channel::granted(result),
        (
            Phase::CompleteDiffUpload,
            Some(DebugClientReply::CompleteDiffUpload { result }),
        ) => channel::granted(result),
        (Phase::ApplyDiff, Some(DebugClientReply::ApplyDiff { result })) => channel::granted(
            result,
        ),
        (Phase::StartCommand, Some(DebugClientReply::StartShell { result })) => channel::granted(
            result,
        ),
        (Phase::StartShell, Some(DebugClientReply::StartShell { result })) => channel::granted(
            result,
        ),
        _ => Err(ChannelError::Unexpected),
    }
}

/// What came back, to a client that waits for the answer that its phase names.
pub fn read_answer(phase: Phase, reply: Option<DebugClientReply>) -> (r: Result<(), ChannelError>)
    ensures
        r == answer(phase, reply),
{
    match (phase, reply) {
        (_, None) => Err(ChannelError::Closed),
        (
            Phase::ConnectDebugClient,
            Some(DebugClientReply::ConnectDebugClient { result }),
        ) => grant(result),
        (Phase::CreateSandbox, Some(DebugClientReply::CreateSandbox { result })) => grant(result),
        (Phase::CheckoutBranch, Some(DebugClientReply::CheckoutBranch { result })) => grant(result),
        (Phase::StartDiffUpload, Some(DebugClientReply::StartDiffUpload { result })) => grant(
            result,
        ),
        (Phase::UploadDiffChunk, Some(DebugClientReply::UploadDiffChunk { result })) => grant(
            result,
        ),
        (
            Phase::CompleteDiffUpload,
            Some(DebugClientReply::CompleteDiffUpload { result }),
        ) => grant(result),
        (Phase::ApplyDiff, Some(DebugClientReply::ApplyDiff { result })) => grant(result),
        (Phase::StartCommand, Some(DebugClientReply::StartShell { result })) => grant(result),
        (Phase::StartShell, Some(DebugClientReply::StartShell { result })) => grant(result),
        _ => Err(ChannelError::Unexpected),
    }
}

/// The client's state: what it waits for, the checksum of what it has uploaded, once
/// an upload was started, and the debugger.
pub struct DebugClient {
    pub phase: Phase,
    pub checksum: Option<Checksum>,
    pub debugger: Debugger,
}

/// The state as mathematics has it. `hashed` is what the checksum has seen, if there
/// is one.
pub struct ClientView {
    pub phase: Phase,
    pub hashed: Option<Seq<u8>>,
    pub debugger: DebuggerView,
}

impl View for DebugClient {
    type V = ClientView;

    open spec fn view(&self) -> ClientView {
        ClientView {
            phase: self.phase,
            hashed: match self.checksum {
                Some(checksum) => Some(checksum.bytes()),
                None => None,
            },
            debugger: self.debugger@,
        }
    }
}

impl ClientView {
    /// The state at the start.
    pub open spec fn fresh(n: nat) -> ClientView {
        ClientView {
            phase: Phase::New,
            hashed: None,
            debugger: DebuggerView::fresh(n),
        }
    }

    /// The states that the client of a job with `n` steps can be in: the debugger
    /// waits for what the client waits for.
    pub open spec fn valid(self, n: nat) -> bool {
        &&& self.debugger.valid(n)
        &&& match self.phase {
            Phase::StartCommand | Phase::RunCommand => self.debugger.activity == Activity::Next
                || self.debugger.activity == Activity::Continue,
            Phase::StartShell | Phase::RunShell => self.debugger.activity == Activity::Shell,
            Phase::Done | Phase::Failed => true,
            _ => self.debugger.activity == Activity::Idle,
        }
    }

    /// Whether the session is over.
    pub open spec fn over(self) -> bool {
        self.phase == Phase::Done || self.phase == Phase::Failed
    }

    /// How many bytes the checksum has seen.
    pub open spec fn hashed_len(self) -> nat {
        match self.hashed {
            Some(bytes) => bytes.len(),
            None => 0,
        }
    }

    /// Whether the client can act on an event: it waits for it, a chunk is no larger
    /// than one is read, what is uploaded does not grow beyond what a checksum can be
    /// made of, and the debugger can act on the line.
    pub open spec fn takes(self, event: ClientEvent) -> bool {
        match event {
            ClientEvent::Started => self.phase == Phase::New,
            ClientEvent::Received(_) => awaits_reply(self.phase),
            ClientEvent::DiffCreated => self.phase == Phase::CreateDiff,
            ClientEvent::Chunk(chunk) => self.phase == Phase::ReadDiff && chunk@.len()
                <= CHUNK_SIZE && self.hashed_len() + chunk@.len() < checksum::DIGEST_LIMIT,
            ClientEvent::Line(line) => self.phase == Phase::Control && self.debugger.takes(line@),
            ClientEvent::Exited(_) => self.phase == Phase::RunCommand,
            ClientEvent::ShellClosed => self.phase == Phase::RunShell,
            ClientEvent::Broken(_) => !self.over() && self.phase != Phase::New,
            ClientEvent::Cancelled => !self.over(),
        }
    }

    pub open spec fn at(self, phase: Phase) -> ClientView {
        ClientView { phase, hashed: self.hashed, debugger: self.debugger }
    }

    /// What a positive answer leads to.
    pub open spec fn after_answer<I, S>(self, target: DebugTarget<I, S>) -> (
        ClientView,
        TaskView<I, S>,
    ) {
        match self.phase {
            Phase::ConnectDebugClient => (
                self.at(Phase::CreateSandbox),
                TaskView::Send(RequestView::CreateSandbox { image: target.job.image }),
            ),
            Phase::CreateSandbox => (
                self.at(Phase::CheckoutBranch),
                TaskView::Send(
                    RequestView::CheckoutBranch {
                        url: target.remote.url@,
                        branch: target.remote.branch@,
                    },
                ),
            ),
            Phase::CheckoutBranch => (self.at(Phase::CreateDiff), TaskView::CreateDiff),
            Phase::StartDiffUpload => (self.at(Phase::ReadDiff), TaskView::ReadChunk),
            Phase::UploadDiffChunk => (self.at(Phase::ReadDiff), TaskView::ReadChunk),
            Phase::CompleteDiffUpload => (
                self.at(Phase::ApplyDiff),
                TaskView::Send(RequestView::ApplyDiff),
            ),
            Phase::ApplyDiff => (self.at(Phase::Control), TaskView::ReadLine),
            Phase::StartCommand => (
                self.at(Phase::RunCommand),
                TaskView::RunCommand {
                    command: target.job.steps@[self.debugger.current as int].command@,
                },
            ),
            _ => (self.at(Phase::RunShell), TaskView::RunShell),
        }
    }

    /// What the debugger's task is for the client.
    pub open spec fn after_debugger<I, S>(
        self,
        target: DebugTarget<I, S>,
        debugger: DebuggerView,
        task: DebuggerTask,
    ) -> (ClientView, TaskView<I, S>) {
        let v = ClientView { phase: self.phase, hashed: self.hashed, debugger };
        match task {
            DebuggerTask::ReadLine => (v.at(Phase::Control), TaskView::ReadLine),
            DebuggerTask::Execute { step_idx } => (
                v.at(Phase::StartCommand),
                TaskView::Send(
                    RequestView::StartShell { step: target.job.steps@[step_idx as int] },
                ),
            ),
            DebuggerTask::OpenShell { step_idx } => (
                v.at(Phase::StartShell),
                TaskView::Send(
                    RequestView::StartShell { step: target.job.steps@[step_idx as int] },
                ),
            ),
            DebuggerTask::Quit => (v.at(Phase::Done), TaskView::Finish),
        }
    }

    /// What a chunk of the local changes leads to: it is uploaded, and the checksum goes
    /// on with it. At the end of the local changes the checksum is sent, and a new one
    /// is begun.
    pub open spec fn after_chunk<I, S>(self, chunk: Seq<u8>) -> (ClientView, TaskView<I, S>) {
        match self.hashed {
            None => (self.at(Phase::Failed), TaskView::Report(ClientError::NoDiffHasher)),
            Some(bytes) => if chunk.len() == 0 {
                (
                    ClientView {
                        phase: Phase::CompleteDiffUpload,
                        hashed: Some(Seq::empty()),
                        debugger: self.debugger,
                    },
                    TaskView::Send(
                        RequestView::CompleteDiffUpload {
                            checksum: checksum::hex_text(checksum::sha256(bytes)),
                        },
                    ),
                )
            } else {
                (
                    ClientView {
                        phase: Phase::UploadDiffChunk,
                        hashed: Some(bytes + chunk),
                        debugger: self.debugger,
                    },
                    TaskView::Send(RequestView::UploadDiffChunk { chunk }),
                )
            },
        }
    }

    /// What an event leads to.
    pub open spec fn step<I, S>(self, target: DebugTarget<I, S>, event: ClientEvent) -> (
        ClientView,
        TaskView<I, S>,
    ) {
        match event {
            ClientEvent::Started => (
                self.at(Phase::ConnectDebugClient),
                TaskView::Send(
                    RequestView::ConnectDebugClient { debug_session_id: target.debug_session_id },
                ),
            ),
            ClientEvent::Received(reply) => match answer(self.phase, reply) {
                Ok(_) => self.after_answer(target),
                Err(error) => (
                    self.at(Phase::Failed),
                    TaskView::Report(ClientError::Channel(error)),
                ),
            },
            ClientEvent::DiffCreated => (
                ClientView {
                    phase: Phase::StartDiffUpload,
                    hashed: Some(Seq::empty()),
                    debugger: self.debugger,
                },
                TaskView::Send(RequestView::StartDiffUpload),
            ),
            ClientEvent::Chunk(chunk) => self.after_chunk(chunk@),
            ClientEvent::Line(line) => self.after_debugger(
                target,
                self.debugger.after_line(line@).0,
                self.debugger.after_line(line@).1,
            ),
            ClientEvent::Exited(exit_code) => self.after_debugger(
                target,
                self.debugger.after_step(exit_code).0,
                self.debugger.after_step(exit_code).1,
            ),
            ClientEvent::ShellClosed => self.after_debugger(
                target,
                self.debugger.after_shell(),
                DebuggerTask::ReadLine,
            ),
            ClientEvent::Broken(reason) => (
                self.at(Phase::Failed),
                TaskView::Report(ClientError::Broken(reason)),
            ),
            ClientEvent::Cancelled => (self.at(Phase::Done), TaskView::Finish),
        }
    }

    /// What is printed on an event: what there is to say about a line, and then,
    /// if a line is to be read next, the screen.
    pub open spec fn printed<I, S>(self, target: DebugTarget<I, S>, event: ClientEvent) -> Seq<
        char,
    > {
        let (after, task) = self.step(target, event);
        let notice = match event {
            ClientEvent::Line(line) => debugger::line_notice(
                line@,
                self.debugger.current,
                self.debugger.success.len(),
            ),
            _ => Seq::empty(),
        };
        if task is ReadLine {
            notice + debugger::screen(target.job, after.debugger)
        } else {
            notice
        }
    }
}

impl DebugClient {
    /// Whether the checksum, if there is one, is a possible one.
    pub open spec fn hasher_valid(self) -> bool {
        self.checksum matches Some(checksum) ==> checksum.valid()
    }

    /// Whether the state is a possible one, for a job with `n` steps.
    pub open spec fn valid(self, n: nat) -> bool {
        self.hasher_valid() && self@.valid(n)
    }

    /// A client for a job with `n` steps.
    pub fn new(n: usize) -> (r: DebugClient)
        ensures
            r.valid(n as nat),
            r@ == ClientView::fresh(n as nat),
    {
        DebugClient { phase: Phase::New, checksum: None, debugger: Debugger::new(n) }
    }

    /// Whether the client can act on an event.
    pub fn can_take(&self, event: &ClientEvent) -> (r: bool)
        requires
            self.hasher_valid(),
        ensures
            r == self@.takes(*event),
    {
        match event {
            ClientEvent::Started => self.phase == Phase::New,
            ClientEvent::Received(_) => match self.phase {
                Phase::ConnectDebugClient => true,
                Phase::CreateSandbox => true,
                Phase::CheckoutBranch => true,
                Phase::StartDiffUpload => true,
                Phase::UploadDiffChunk => true,
                Phase::CompleteDiffUpload => true,
                Phase::ApplyDiff => true,
                Phase::StartCommand => true,
                Phase::StartShell => true,
                _ => false,
            },
            ClientEvent::DiffCreated => self.phase == Phase::CreateDiff,
            ClientEvent::Chunk(chunk) => self.phase == Phase::ReadDiff && chunk.len() <= CHUNK_SIZE
                && match &self.checksum {
                Some(checksum) => checksum.can_take(chunk.len()),
                None => true,
            },
            ClientEvent::Line(line) => self.phase == Phase::Control && self.debugger.can_take(
                line.as_str(),
            ),
            ClientEvent::Exited(_) => self.phase == Phase::RunCommand,
            ClientEvent::ShellClosed => self.phase == Phase::RunShell,
            ClientEvent::Broken(_) => self.phase != Phase::New && self.phase != Phase::Done
                && self.phase != Phase::Failed,
            ClientEvent::Cancelled => self.phase != Phase::Done && self.phase != Phase::Failed,
        }
    }

    /// Acts on a positive answer.
    fn accept<'a, I, S>(&mut self, target: &'a DebugTarget<I, S>) -> (r: ClientTask<'a, I, S>)
        requires
            old(self).valid(target.job.steps@.len()),
            awaits_reply(old(self).phase),
        ensures
            final(self)@ == old(self)@.after_answer(*target).0,
            r@ == old(self)@.after_answer(*target).1,
            final(self).valid(target.job.steps@.len()),
    {
        match self.phase {
            Phase::ConnectDebugClient => {
                self.phase = Phase::CreateSandbox;
                ClientTask::Send(DebugClientRequest::CreateSandbox { image: &target.job.image })
            },
            Phase::CreateSandbox => {
                self.phase = Phase::CheckoutBranch;
                ClientTask::Send(
                    DebugClientRequest::CheckoutBranch {
                        url: target.remote.url.clone(),
                        branch: target.remote.branch.clone(),
                    },
                )
            },
            Phase::CheckoutBranch => {
                self.phase = Phase::CreateDiff;
                ClientTask::CreateDiff
            },
            Phase::StartDiffUpload | Phase::UploadDiffChunk => {
                self.phase = Phase::ReadDiff;
                ClientTask::ReadChunk
            },
            Phase::CompleteDiffUpload => {
                self.phase = Phase::ApplyDiff;
                ClientTask::Send(DebugClientRequest::ApplyDiff)
            },
            Phase::ApplyDiff => {
                self.phase = Phase::Control;
                ClientTask::ReadLine
            },
            Phase::StartCommand => {
                self.phase = Phase::RunCommand;
                let step = &target.job.steps[self.debugger.current_step];
                ClientTask::RunCommand { command: &step.command }
            },
            _ => {
                self.phase = Phase::RunShell;
                ClientTask::RunShell
            },
        }
    }

    /// Passes the debugger's task on.
    fn pass_on<'a, I, S>(&mut self, target: &'a DebugTarget<I, S>, task: DebuggerTask) -> (r:
        ClientTask<'a, I, S>)
        requires
            old(self).hasher_valid(),
            old(self)@.debugger.valid(target.job.steps@.len()),
            match task {
                DebuggerTask::Execute { step_idx } => step_idx == old(self)@.debugger.current && (
                old(self)@.debugger.activity == Activity::Next || old(self)@.debugger.activity
                    == Activity::Continue),
                DebuggerTask::OpenShell { step_idx } => step_idx == old(self)@.debugger.current
                    && old(self)@.debugger.activity == Activity::Shell,
                _ => old(self)@.debugger.activity == Activity::Idle,
            },
        ensures
            final(self)@ == old(self)@.after_debugger(*target, old(self)@.debugger, task).0,
            r@ == old(self)@.after_debugger(*target, old(self)@.debugger, task).1,
            final(self).valid(target.job.steps@.len()),
    {
        match task {
            DebuggerTask::ReadLine => {
                self.phase = Phase::Control;
                ClientTask::ReadLine
            },
            DebuggerTask::Execute { step_idx } => {
                self.phase = Phase::StartCommand;
                let step = &target.job.steps[step_idx];
                ClientTask::Send(DebugClientRequest::StartShell { step })
            },
            DebuggerTask::OpenShell { step_idx } => {
                self.phase = Phase::StartShell;
                let step = &target.job.steps[step_idx];
                ClientTask::Send(DebugClientRequest::StartShell { step })
            },
            DebuggerTask::Quit => {
                self.phase = Phase::Done;
                ClientTask::Finish
            },
        }
    }

    /// Goes on with the next chunk of the local changes, or ends the upload.
    fn take_chunk<'a, I, S>(&mut self, chunk: Vec<u8>) -> (r: ClientTask<'a, I, S>)
        requires
            old(self).hasher_valid(),
            old(self)@.hashed_len() + chunk@.len() < checksum::DIGEST_LIMIT,
        ensures
            final(self).hasher_valid(),
            final(self)@ == old(self)@.after_chunk::<I, S>(chunk@).0,
            r@ == old(self)@.after_chunk::<I, S>(chunk@).1,
    {
        let mut hasher: Option<Checksum> = None;
        std::mem::swap(&mut hasher, &mut self.checksum);
        match hasher {
            None => {
                self.phase = Phase::Failed;
                ClientTask::Report(ClientError::NoDiffHasher)
            },
            Some(mut checksum) => {
                if chunk.len() == 0 {
                    let text = checksum.finish();
                    self.checksum = Some(checksum);
                    self.phase = Phase::CompleteDiffUpload;
                    ClientTask::Send(DebugClientRequest::CompleteDiffUpload { checksum: text })
                } else {
                    checksum.update(chunk.as_slice());
                    self.checksum = Some(checksum);
                    self.phase = Phase::UploadDiffChunk;
                    ClientTask::Send(DebugClientRequest::UploadDiffChunk { chunk })
                }
            },
        }
    }

    /// Acts on an event.
    pub fn advance<'a, I, S>(&mut self, target: &'a DebugTarget<I, S>, event: ClientEvent) -> (r:
        ClientAction<'a, I, S>)
        requires
            old(self).valid(target.job.steps@.len()),
            old(self)@.takes(event),
        ensures
            final(self).valid(target.job.steps@.len()),
            final(self)@ == old(self)@.step(*target, event).0,
            r.task@ == old(self)@.step(*target, event).1,
            r.text@ == old(self)@.printed(*target, event),
    {
        let mut text = String::new();
        let task = match event {
            ClientEvent::Started => {
                self.phase = Phase::ConnectDebugClient;
                ClientTask::Send(
                    DebugClientRequest::ConnectDebugClient {
                        debug_session_id: target.debug_session_id,
                    },
                )
            },
            ClientEvent::Received(reply) => match read_answer(self.phase, reply) {
                Ok(_) => self.accept(target),
                Err(error) => {
                    self.phase = Phase::Failed;
                    ClientTask::Report(ClientError::Channel(error))
                },
            },
            ClientEvent::DiffCreated => {
                self.checksum = Some(Checksum::new());
                self.phase = Phase::StartDiffUpload;
                ClientTask::Send(DebugClientRequest::StartDiffUpload)
            },
            ClientEvent::Chunk(chunk) => self.take_chunk(chunk),
            ClientEvent::Line(line) => {
                let (notice, task) = self.debugger.take_line(line.as_str());
                text = notice;
                self.pass_on(target, task)
            },
            ClientEvent::Exited(exit_code) => {
                let task = self.debugger.step_finished(exit_code);
                self.pass_on(target, task)
            },
            ClientEvent::ShellClosed => {
                let task = self.debugger.shell_closed();
                self.pass_on(target, task)
            },
            ClientEvent::Broken(reason) => {
                self.phase = Phase::Failed;
                ClientTask::Report(ClientError::Broken(reason))
            },
            ClientEvent::Cancelled => {
                self.phase = Phase::Done;
                ClientTask::Finish
            },
        };
        if matches!(task, ClientTask::ReadLine) {
            let shown = self.debugger.show(&target.job);
            text.append(shown.as_str());
        }
        ClientAction { text, task }
    }
}

} // verus!
