//! Running a command or a shell in an SSH session: how it is started, and what is done
//! about what it says.

use vstd::prelude::*;

verus! {

/// What runs in the session.
#[derive(Clone, Copy)]
pub enum ShellProgram<'a> {
    /// A command.
    Command(&'a str),
    /// A shell that a person uses.
    Interactive,
}

/// A message of the SSH channel in which a command or a shell runs.
pub enum ShellMessage {
    /// Bytes for the standard output.
    Data(Vec<u8>),
    /// Bytes for the standard error.
    ExtendedData(Vec<u8>),
    /// The exit code.
    ExitStatus(u32),
    Eof,
    Close,
    /// Anything else.
    Other,
}

/// What happens while a command or a shell is started and runs.
pub enum ShellEvent {
    /// The channel is open.
    Opened,
    /// The size of the local terminal in columns and rows, if it has one.
    Measured(Option<(u16, u16)>),
    /// What was asked for last is done.
    Ready,
    /// A message came, or no more will come.
    Message(Option<ShellMessage>),
    /// Ctrl+C was pressed, or (`false`) waiting for that failed.
    Interrupt(bool),
    /// Bytes were typed, or no more will be.
    Input(Option<Vec<u8>>),
}

/// What is to be done about it.
pub enum ShellTask<'a> {
    /// Ask the server to run this command, and have that confirmed.
    Exec { command: &'a str },
    /// Find out how large the local terminal is.
    Measure,
    /// Ask the server for a terminal of this size.
    RequestPty { cols: u32, rows: u32 },
    /// Ask the server for a shell, and have that confirmed.
    RequestShell,
    /// Have the local terminal hand on every key as it is.
    EnterRawMode,
    /// Write these bytes to the standard output.
    Stdout(Vec<u8>),
    /// Write these bytes to the standard error.
    Stderr(Vec<u8>),
    /// Send the remote process the signal that Ctrl+C stands for.
    ForwardInterrupt,
    /// Send these bytes to the remote shell.
    SendInput(Vec<u8>),
    /// Wait for what happens next.
    Wait,
    /// Stop, with this exit code. With `leave_raw_mode`, have the local terminal behave
    /// as before first.
    Finish { exit_code: u32, leave_raw_mode: bool },
}

/// What a command or a shell waits for.
#[derive(Clone, Copy, Debug, PartialEq, Eq, Structural)]
pub enum ShellPhase {
    Open,
    Measure,
    RequestPty,
    RequestShell,
    /// The last step before it runs.
    Start,
    Run,
    Over,
}

/// A command or a shell: what it waits for, and the exit code that it ends with, as
/// far as is known.
pub struct ShellRun<'a> {
    pub program: ShellProgram<'a>,
    pub phase: ShellPhase,
    pub exit_code: u32,
}

/// The size of the terminal that a shell is given, in columns and rows: that of the
/// local terminal, or a common one where that has none.
pub open spec fn size_or_common(size: Option<(u16, u16)>) -> (u32, u32) {
    match size {
        Some((cols, rows)) => (cols as u32, rows as u32),
        None => (80, 24),
    }
}

/// The size of the terminal that a shell is given, in columns and rows.
pub fn pty_size(size: Option<(u16, u16)>) -> (r: (u32, u32))
    ensures
        r == size_or_common(size),
{
    match size {
        Some((cols, rows)) => (cols as u32, rows as u32),
        None => (80, 24),
    }
}

/// The kind of terminal that a shell is given.
pub fn pty_term() -> (r: &'static str)
    ensures
        r@ == "xterm-256color"@,
{
    "xterm-256color"
}

impl<'a> ShellRun<'a> {
    /// A command or a shell that is not started.
    pub open spec fn fresh(program: ShellProgram<'a>) -> ShellRun<'a> {
        ShellRun { program, phase: ShellPhase::Open, exit_code: 0 }
    }

    /// Whether an event can be acted on. Ctrl+C is looked out for while a command
    /// runs; a shell gets it with what is typed.
    pub open spec fn takes(self, event: ShellEvent) -> bool {
        match event {
            ShellEvent::Opened => self.phase == ShellPhase::Open,
            ShellEvent::Measured(_) => self.phase == ShellPhase::Measure,
            ShellEvent::Ready => self.phase == ShellPhase::RequestPty || self.phase
                == ShellPhase::RequestShell || self.phase == ShellPhase::Start,
            ShellEvent::Message(_) => self.phase == ShellPhase::Run,
            ShellEvent::Interrupt(_) => self.phase == ShellPhase::Run && self.program is Command,
            ShellEvent::Input(_) => self.phase == ShellPhase::Run && self.program is Interactive,
        }
    }

    pub open spec fn at(self, phase: ShellPhase) -> ShellRun<'a> {
        ShellRun { program: self.program, phase, exit_code: self.exit_code }
    }

    /// How it ends.
    pub open spec fn end(self) -> (ShellRun<'a>, ShellTask<'a>) {
        (
            self.at(ShellPhase::Over),
            ShellTask::Finish {
                exit_code: self.exit_code,
                leave_raw_mode: self.program is Interactive,
            },
        )
    }

    /// What an event leads to.
    pub open spec fn step(self, event: ShellEvent) -> (ShellRun<'a>, ShellTask<'a>) {
        match event {
            ShellEvent::Opened => match self.program {
                ShellProgram::Command(command) => (
                    self.at(ShellPhase::Start),
                    ShellTask::Exec { command },
                ),
                ShellProgram::Interactive => (self.at(ShellPhase::Measure), ShellTask::Measure),
            },
            ShellEvent::Measured(size) => (
                self.at(ShellPhase::RequestPty),
                ShellTask::RequestPty {
                    cols: size_or_common(size).0,
                    rows: size_or_common(size).1,
                },
            ),
            ShellEvent::Ready => match self.phase {
                ShellPhase::RequestPty => (
                    self.at(ShellPhase::RequestShell),
                    ShellTask::RequestShell,
                ),
                ShellPhase::RequestShell => (self.at(ShellPhase::Start), ShellTask::EnterRawMode),
                _ => (self.at(ShellPhase::Run), ShellTask::Wait),
            },
            ShellEvent::Message(Some(ShellMessage::Data(data))) => (self, ShellTask::Stdout(data)),
            ShellEvent::Message(Some(ShellMessage::ExtendedData(data))) => (
                self,
                ShellTask::Stderr(data),
            ),
            ShellEvent::Message(Some(ShellMessage::ExitStatus(exit_code))) => (
                ShellRun { program: self.program, phase: self.phase, exit_code },
                ShellTask::Wait,
            ),
            ShellEvent::Message(Some(ShellMessage::Other)) => (self, ShellTask::Wait),
            ShellEvent::Message(_) => self.end(),
            ShellEvent::Interrupt(pressed) => (
                self,
                if pressed {
                    ShellTask::ForwardInterrupt
                } else {
                    ShellTask::Wait
                },
            ),
            ShellEvent::Input(Some(data)) => (self, ShellTask::SendInput(data)),
            ShellEvent::Input(None) => self.end(),
        }
    }

    /// Whether an event can be acted on.
    pub fn can_take(&self, event: &ShellEvent) -> (r: bool)
        ensures
            r == self.takes(*event),
    {
        match event {
            ShellEvent::Opened => self.phase == ShellPhase::Open,
            ShellEvent::Measured(_) => self.phase == ShellPhase::Measure,
            ShellEvent::Ready => self.phase == ShellPhase::RequestPty || self.phase
                == ShellPhase::RequestShell || self.phase == ShellPhase::Start,
            ShellEvent::Message(_) => self.phase == ShellPhase::Run,
            ShellEvent::Interrupt(_) => self.phase == ShellPhase::Run && matches!(
                self.program,
                ShellProgram::Command(_)
            ),
            ShellEvent::Input(_) => self.phase == ShellPhase::Run && matches!(
                self.program,
                ShellProgram::Interactive
            ),
        }
    }

    /// Ends.
    fn finish(&mut self) -> (r: ShellTask<'a>)
        ensures
            (*final(self), r) == old(self).end(),
    {
        self.phase = ShellPhase::Over;
        ShellTask::Finish {
            exit_code: self.exit_code,
            leave_raw_mode: matches!(self.program, ShellProgram::Interactive),
        }
    }

    /// Acts on an event.
    pub fn advance(&mut self, event: ShellEvent) -> (r: ShellTask<'a>)
        requires
            old(self).takes(event),
        ensures
            (*final(self), r) == old(self).step(event),
    {
        match event {
            ShellEvent::Opened => match self.program {
                ShellProgram::Command(command) => {
                    self.phase = ShellPhase::Start;
                    ShellTask::Exec { command }
                },
                ShellProgram::Interactive => {
                    self.phase = ShellPhase::Measure;
                    ShellTask::Measure
                },
            },
            ShellEvent::Measured(size) => {
                let (cols, rows) = pty_size(size);
                self.phase = ShellPhase::RequestPty;
                ShellTask::RequestPty { cols, rows }
            },
            ShellEvent::Ready => match self.phase {
                ShellPhase::RequestPty => {
                    self.phase = ShellPhase::RequestShell;
                    ShellTask::RequestShell
                },
                ShellPhase::RequestShell => {
                    self.phase = ShellPhase::Start;
                    ShellTask::EnterRawMode
                },
                _ => {
                    self.phase = ShellPhase::Run;
                    ShellTask::Wait
                },
            },
            ShellEvent::Message(Some(ShellMessage::Data(data))) => ShellTask::Stdout(data),
            ShellEvent::Message(Some(ShellMessage::ExtendedData(data))) => ShellTask::Stderr(data),
            ShellEvent::Message(Some(ShellMessage::ExitStatus(exit_code))) => {
                self.exit_code = exit_code;
                ShellTask::Wait
            },
            ShellEvent::Message(Some(ShellMessage::Other)) => ShellTask::Wait,
            ShellEvent::Message(_) => self.finish(),
            ShellEvent::Interrupt(pressed) => {
                if pressed {
                    ShellTask::ForwardInterrupt
                } else {
                    ShellTask::Wait
                }
            },
            ShellEvent::Input(Some(data)) => ShellTask::SendInput(data),
            ShellEvent::Input(None) => self.finish(),
        }
    }
}

/// A command to run.
pub fn run_exec_shell<'a>(cmd: &'a str) -> (r: ShellRun<'a>)
    ensures
        r == ShellRun::fresh(ShellProgram::Command(cmd)),
{
    ShellRun { program: ShellProgram::Command(cmd), phase: ShellPhase::Open, exit_code: 0 }
}

/// A shell for a person to use.
pub fn run_interactive_shell() -> (r: ShellRun<'static>)
    ensures
        r == ShellRun::fresh(ShellProgram::Interactive),
{
    ShellRun { program: ShellProgram::Interactive, phase: ShellPhase::Open, exit_code: 0 }
}

/// How the client of an SSH session looks at the server.
pub struct ClientHandler;

impl ClientHandler {
    /// Whether the server's key is accepted. Every key is: the session runs inside a
    /// channel that is already connected to the server.
    pub fn check_server_key(&self) -> (r: bool)
        ensures
            r,
    {
        true
    }
}

/// The state after these events.
pub open spec fn shell_after<'a>(program: ShellProgram<'a>, events: Seq<ShellEvent>) -> ShellRun<'a>
    decreases events.len(),
{
    if events.len() == 0 {
        ShellRun::fresh(program)
    } else {
        shell_after(program, events.drop_last()).step(events.last()).0
    }
}

/// Whether each of these events could be acted on when it came.
pub open spec fn shell_session<'a>(program: ShellProgram<'a>, events: Seq<ShellEvent>) -> bool
    decreases events.len(),
{
    events.len() == 0 || shell_session(program, events.drop_last()) && shell_after(
        program,
        events.drop_last(),
    ).takes(events.last())
}

/// What the last event made to be done.
pub open spec fn last_shell_task<'a>(
    program: ShellProgram<'a>,
    events: Seq<ShellEvent>,
) -> ShellTask<'a> {
    shell_after(program, events.drop_last()).step(events.last()).1
}

/// The exit code that was last told in these events, or zero.
pub open spec fn last_status(events: Seq<ShellEvent>) -> u32
    decreases events.len(),
{
    if events.len() == 0 {
        0
    } else {
        match events.last() {
            ShellEvent::Message(Some(ShellMessage::ExitStatus(exit_code))) => exit_code,
            _ => last_status(events.drop_last()),
        }
    }
}

/// The exit code that a command or a shell ends with is the last one that was
/// told, or zero if none was.
pub proof fn exit_code_is_last_status<'a>(program: ShellProgram<'a>, events: Seq<ShellEvent>)
    ensures
        shell_after(program, events).exit_code == last_status(events),
        events.len() > 0 ==> (last_shell_task(program, events) matches ShellTask::Finish {
            exit_code,
            ..
        } ==> exit_code == last_status(events)),
    decreases events.len(),
{
    if events.len() > 0 {
        exit_code_is_last_status(program, events.drop_last());
    }
}

/// How many of these events made the local terminal enter raw mode, less those that
/// made it leave raw mode.
pub open spec fn raw_mode_depth<'a>(program: ShellProgram<'a>, events: Seq<ShellEvent>) -> int
    decreases events.len(),
{
    if events.len() == 0 {
        0
    } else {
        let before = raw_mode_depth(program, events.drop_last());
        match last_shell_task(program, events) {
            ShellTask::EnterRawMode => before + 1,
            ShellTask::Finish { leave_raw_mode: true, .. } => before - 1,
            _ => before,
        }
    }
}

proof fn shell_history<'a>(program: ShellProgram<'a>, events: Seq<ShellEvent>)
    requires
        shell_session(program, events),
    ensures
        ({
            let now = shell_after(program, events);
            &&& now.program == program
            &&& program is Command ==> now.phase != ShellPhase::Measure && now.phase
                != ShellPhase::RequestPty && now.phase != ShellPhase::RequestShell
            &&& raw_mode_depth(program, events) == (if program is Interactive && (now.phase
                == ShellPhase::Start || now.phase == ShellPhase::Run) {
                1int
            } else {
                0
            })
        }),
    decreases events.len(),
{
    if events.len() > 0 {
        shell_history(program, events.drop_last());
    }
}

/// The local terminal is in raw mode only from the moment at which the server has given
/// the shell until that shell ends, and never for a command: a run that comes to its end
/// has left the terminal as it was. A run that is broken off, because a request, a write or
/// the terminal fails, comes to no end here, and the terminal may then stay in raw mode.
pub proof fn terminal_is_left_as_it_was<'a>(program: ShellProgram<'a>, events: Seq<ShellEvent>)
    requires
        shell_session(program, events),
    ensures
        0 <= raw_mode_depth(program, events) <= 1,
        program is Command ==> raw_mode_depth(program, events) == 0,
        shell_after(program, events).phase == ShellPhase::Over ==> raw_mode_depth(program, events)
            == 0,
{
    shell_history(program, events);
}

/// What is typed goes to a shell alone, and the signal for Ctrl+C to a command alone.
pub proof fn keys_go_where_they_belong<'a>(run: ShellRun<'a>, event: ShellEvent)
    requires
        run.takes(event),
    ensures
        run.step(event).1 is SendInput ==> run.program is Interactive,
        run.step(event).1 is ForwardInterrupt ==> run.program is Command,
        run.step(event).1 matches ShellTask::Exec { command } ==> run.program
            == ShellProgram::Command(command),
{
}

/// The bytes that were written to the standard output in these events.
pub open spec fn shown_on_stdout<'a>(program: ShellProgram<'a>, events: Seq<ShellEvent>) -> Seq<u8>
    decreases events.len(),
{
    if events.len() == 0 {
        Seq::empty()
    } else {
        let before = shown_on_stdout(program, events.drop_last());
        match last_shell_task(program, events) {
            ShellTask::Stdout(data) => before + data@,
            _ => before,
        }
    }
}

/// The bytes that were written to the standard error in these events.
pub open spec fn shown_on_stderr<'a>(program: ShellProgram<'a>, events: Seq<ShellEvent>) -> Seq<u8>
    decreases events.len(),
{
    if events.len() == 0 {
        Seq::empty()
    } else {
        let before = shown_on_stderr(program, events.drop_last());
        match last_shell_task(program, events) {
            ShellTask::Stderr(data) => before + data@,
            _ => before,
        }
    }
}

/// The bytes that were sent to the remote shell in these events.
pub open spec fn sent_to_shell<'a>(program: ShellProgram<'a>, events: Seq<ShellEvent>) -> Seq<u8>
    decreases events.len(),
{
    if events.len() == 0 {
        Seq::empty()
    } else {
        let before = sent_to_shell(program, events.drop_last());
        match last_shell_task(program, events) {
            ShellTask::SendInput(data) => before + data@,
            _ => before,
        }
    }
}

/// How many times the remote process was sent the signal for Ctrl+C in these events.
pub open spec fn interrupts_sent<'a>(program: ShellProgram<'a>, events: Seq<ShellEvent>) -> nat
    decreases events.len(),
{
    if events.len() == 0 {
        0
    } else {
        let before = interrupts_sent(program, events.drop_last());
        match last_shell_task(program, events) {
            ShellTask::ForwardInterrupt => before + 1,
            _ => before,
        }
    }
}

/// The bytes of all the messages with output in these events, in order.
pub open spec fn output_received(events: Seq<ShellEvent>) -> Seq<u8>
    decreases events.len(),
{
    if events.len() == 0 {
        Seq::empty()
    } else {
        let before = output_received(events.drop_last());
        match events.last() {
            ShellEvent::Message(Some(ShellMessage::Data(data))) => before + data@,
            _ => before,
        }
    }
}

/// The bytes of all the messages with error output in these events, in order.
pub open spec fn errors_received(events: Seq<ShellEvent>) -> Seq<u8>
    decreases events.len(),
{
    if events.len() == 0 {
        Seq::empty()
    } else {
        let before = errors_received(events.drop_last());
        match events.last() {
            ShellEvent::Message(Some(ShellMessage::ExtendedData(data))) => before + data@,
            _ => before,
        }
    }
}

/// The bytes that were typed in these events, in order.
pub open spec fn bytes_typed(events: Seq<ShellEvent>) -> Seq<u8>
    decreases events.len(),
{
    if events.len() == 0 {
        Seq::empty()
    } else {
        let before = bytes_typed(events.drop_last());
        match events.last() {
            ShellEvent::Input(Some(data)) => before + data@,
            _ => before,
        }
    }
}

/// How many times Ctrl+C was pressed in these events.
pub open spec fn interrupts_pressed(events: Seq<ShellEvent>) -> nat
    decreases events.len(),
{
    if events.len() == 0 {
        0
    } else {
        let before = interrupts_pressed(events.drop_last());
        match events.last() {
            ShellEvent::Interrupt(true) => before + 1,
            _ => before,
        }
    }
}

/// Over a whole run, of a command and of a shell alike, what is written to the standard
/// output is all the output that was received, in order and nothing else; what is written
/// to the standard error is all the error output; what is sent to the remote shell is all
/// that was typed; and Ctrl+C is passed on each time that it was pressed.
pub proof fn everything_said_is_passed_on<'a>(program: ShellProgram<'a>, events: Seq<ShellEvent>)
    requires
        shell_session(program, events),
    ensures
        shown_on_stdout(program, events) == output_received(events),
        shown_on_stderr(program, events) == errors_received(events),
        sent_to_shell(program, events) == bytes_typed(events),
        interrupts_sent(program, events) == interrupts_pressed(events),
    decreases events.len(),
{
    if events.len() > 0 {
        everything_said_is_passed_on(program, events.drop_last());
    }
}

/// Whether an event ends what runs: the channel ends or is closed, no more messages will
/// come, or no more will be typed.
pub open spec fn ends_the_run(event: ShellEvent) -> bool {
    match event {
        ShellEvent::Message(None) => true,
        ShellEvent::Message(Some(ShellMessage::Eof)) => true,
        ShellEvent::Message(Some(ShellMessage::Close)) => true,
        ShellEvent::Input(None) => true,
        _ => false,
    }
}

/// A command is asked for as it was given, and runs when the server has confirmed it.
pub proof fn command_starts_as_given<'a>(cmd: &'a str)
    ensures
        ({
            let start = ShellRun::fresh(ShellProgram::Command(cmd));
            let (asked, task) = start.step(ShellEvent::Opened);
            let (running, last) = asked.step(ShellEvent::Ready);
            &&& start.takes(ShellEvent::Opened)
            &&& task == (ShellTask::Exec { command: cmd })
            &&& asked.takes(ShellEvent::Ready)
            &&& last is Wait
            &&& running.program == ShellProgram::Command(cmd)
            &&& running.phase == ShellPhase::Run
            &&& running.exit_code == 0
        }),
{
}

/// A shell is started in one order: the local terminal is measured, the server is asked for
/// a terminal of that size, or of 80 columns and 24 rows where it has none, and then for a
/// shell, and only then the local terminal enters raw mode.
pub proof fn shell_starts_in_order(size: Option<(u16, u16)>)
    ensures
        ({
            let start = ShellRun::fresh(ShellProgram::Interactive);
            let (r1, t1) = start.step(ShellEvent::Opened);
            let (r2, t2) = r1.step(ShellEvent::Measured(size));
            let (r3, t3) = r2.step(ShellEvent::Ready);
            let (r4, t4) = r3.step(ShellEvent::Ready);
            let (r5, t5) = r4.step(ShellEvent::Ready);
            &&& start.takes(ShellEvent::Opened) && t1 is Measure
            &&& r1.takes(ShellEvent::Measured(size))
            &&& size matches Some((cols, rows)) ==> t2 == (ShellTask::RequestPty {
                cols: cols as u32,
                rows: rows as u32,
            })
            &&& size is None ==> t2 == (ShellTask::RequestPty { cols: 80, rows: 24 })
            &&& r2.takes(ShellEvent::Ready) && t3 is RequestShell
            &&& r3.takes(ShellEvent::Ready) && t4 is EnterRawMode
            &&& r4.takes(ShellEvent::Ready) && t5 is Wait
            &&& r5.program is Interactive && r5.phase == ShellPhase::Run && r5.exit_code == 0
        }),
{
}

/// While something runs, every message is acted on, Ctrl+C for a command, and what is typed
/// for a shell. It ends when an event ends it and not before, and then acts on nothing more.
/// Until then it goes on running the same program.
pub proof fn runs_until_it_is_ended<'a>(
    run: ShellRun<'a>,
    event: ShellEvent,
    message: Option<ShellMessage>,
    pressed: bool,
    typed: Option<Vec<u8>>,
    next: ShellEvent,
)
    requires
        run.phase == ShellPhase::Run,
        run.takes(event),
    ensures
        run.takes(ShellEvent::Message(message)),
        run.takes(ShellEvent::Interrupt(pressed)) <==> run.program is Command,
        run.takes(ShellEvent::Input(typed)) <==> run.program is Interactive,
        run.step(event).0.program == run.program,
        ends_the_run(event) <==> run.step(event).1 is Finish,
        ends_the_run(event) ==> !run.step(event).0.takes(next) && run.step(event).1
            == (ShellTask::Finish {
            exit_code: run.exit_code,
            leave_raw_mode: run.program is Interactive,
        }),
        !ends_the_run(event) ==> run.step(event).0.phase == ShellPhase::Run,
{
}

} // verus!
