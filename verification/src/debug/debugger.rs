//! The debugger's command loop: what a line typed at its prompt asks for, what is
//! done about it, and what the screen shows.

use crate::config::JobConfig;
use crate::config::StepConfig;
use crate::text;
use crate::text::decimal_text;
use crate::text::read_number;
use crate::text::same_text;
use crate::text::split_words;
use crate::text::trim_text;
use vstd::prelude::*;

verus! {

/// A command of the debugger. Steps are counted from zero.
#[derive(Clone, Copy, Debug, PartialEq, Eq, Structural)]
pub enum DebuggerCommand {
    Quit,
    Next,
    Continue { step_idx: usize },
    Ssh { step_idx: usize },
    Move { step_idx: usize },
}

/// What a line typed at the prompt is.
#[derive(Clone, Copy, Debug, PartialEq, Eq, Structural)]
pub enum Entry {
    /// Nothing but white space.
    Blank,
    /// A word that names no command comes first.
    Unknown,
    /// A command.
    Command(DebuggerCommand),
}

/// What the debugger waits for.
#[derive(Clone, Copy, Debug, PartialEq, Eq, Structural)]
pub enum Activity {
    /// The next line.
    Idle,
    /// The end of a step that was run alone.
    Next,
    /// The end of a step of a run that goes on from step to step.
    Continue,
    /// The end of an interactive shell.
    Shell,
}

/// What is to be done next.
#[derive(Clone, Copy, Debug, PartialEq, Eq, Structural)]
pub enum DebuggerTask {
    /// Show the screen and read a line.
    ReadLine,
    /// Run the step's command and report its exit code.
    Execute { step_idx: usize },
    /// Open an interactive shell for the step and report its end.
    OpenShell { step_idx: usize },
    /// Leave the debugger.
    Quit,
}

/// The words that name the commands.
pub open spec fn names_shell(w: Seq<char>) -> bool {
    w == "s"@ || w == "shell"@
}

pub open spec fn names_move(w: Seq<char>) -> bool {
    w == "m"@ || w == "move"@
}

pub open spec fn names_continue(w: Seq<char>) -> bool {
    w == "c"@ || w == "continue"@
}

pub open spec fn names_next(w: Seq<char>) -> bool {
    w == "n"@ || w == "next"@
}

pub open spec fn names_quit(w: Seq<char>) -> bool {
    w == "q"@ || w == "quit"@
}

/// The step number that a command is given, if its second word is a number.
pub open spec fn argument(w: Seq<Seq<char>>) -> Option<usize> {
    if w.len() > 1 {
        match text::number_of(w[1]) {
            Ok(n) => Some(n),
            Err(_) => None,
        }
    } else {
        None
    }
}

/// The step that a command is about: the one with the number given, where the
/// first step has the number one, or else the current step.
pub open spec fn target(w: Seq<Seq<char>>, current: usize) -> usize {
    match argument(w) {
        Some(n) => (n - 1) as usize,
        None => current,
    }
}

/// Whether a line gives a command the step number zero, which no step has.
pub open spec fn asks_for_step_zero(line: Seq<char>) -> bool {
    let w = text::words(line);
    &&& w.len() > 0
    &&& names_shell(w[0]) || names_move(w[0]) || names_continue(w[0])
    &&& argument(w) == Some(0usize)
}

/// What a line is, typed while `current` is the current step.
pub open spec fn entry_of(line: Seq<char>, current: usize) -> Entry {
    let w = text::words(line);
    if w.len() == 0 {
        Entry::Blank
    } else if names_shell(w[0]) {
        Entry::Command(DebuggerCommand::Ssh { step_idx: target(w, current) })
    } else if names_move(w[0]) {
        Entry::Command(DebuggerCommand::Move { step_idx: target(w, current) })
    } else if names_continue(w[0]) {
        Entry::Command(DebuggerCommand::Continue { step_idx: target(w, current) })
    } else if names_next(w[0]) {
        Entry::Command(DebuggerCommand::Next)
    } else if names_quit(w[0]) {
        Entry::Command(DebuggerCommand::Quit)
    } else {
        Entry::Unknown
    }
}

/// The step number that the words of a command give.
fn read_argument(w: &Vec<String>, Ghost(view): Ghost<Seq<Seq<char>>>) -> (r: Option<usize>)
    requires
        w@.len() == view.len(),
        forall|k: int| 0 <= k < w@.len() ==> (#[trigger] w@[k])@ == view[k],
    ensures
        r == argument(view),
{
    if w.len() > 1 {
        match read_number(w[1].as_str()) {
            Ok(n) => Some(n),
            Err(_) => None,
        }
    } else {
        None
    }
}

/// Whether a line gives a command the step number zero.
pub fn is_step_zero(line: &str) -> (r: bool)
    ensures
        r == asks_for_step_zero(line@),
{
    let w = split_words(line);
    if w.len() == 0 {
        return false;
    }
    let first = w[0].as_str();
    let takes_step = same_text(first, "s") || same_text(first, "shell") || same_text(first, "m")
        || same_text(first, "move") || same_text(first, "c") || same_text(first, "continue");
    match read_argument(&w, Ghost(text::words(line@))) {
        Some(n) => takes_step && n == 0,
        None => false,
    }
}

/// Reads a line typed while `current` is the current step.
pub fn read_entry(line: &str, current: usize) -> (r: Entry)
    requires
        !asks_for_step_zero(line@),
    ensures
        r == entry_of(line@, current),
{
    let w = split_words(line);
    if w.len() == 0 {
        return Entry::Blank;
    }
    let first = w[0].as_str();
    let shell = same_text(first, "s") || same_text(first, "shell");
    let mv = same_text(first, "m") || same_text(first, "move");
    let cont = same_text(first, "c") || same_text(first, "continue");
    if shell || mv || cont {
        let step_idx: usize = match read_argument(&w, Ghost(text::words(line@))) {
            Some(n) => n - 1,
            None => current,
        };
        if shell {
            Entry::Command(DebuggerCommand::Ssh { step_idx })
        } else if mv {
            Entry::Command(DebuggerCommand::Move { step_idx })
        } else {
            Entry::Command(DebuggerCommand::Continue { step_idx })
        }
    } else if same_text(first, "n") || same_text(first, "next") {
        Entry::Command(DebuggerCommand::Next)
    } else if same_text(first, "q") || same_text(first, "quit") {
        Entry::Command(DebuggerCommand::Quit)
    } else {
        Entry::Unknown
    }
}

/// The debugger's state: the current step, what is known of each step (whether
/// its last run succeeded, if it ran), and what is under way.
pub struct Debugger {
    pub current_step: usize,
    pub step_success: Vec<Option<bool>>,
    pub activity: Activity,
}

/// The state as mathematics has it.
#[verifier::ext_equal]
pub struct DebuggerView {
    pub current: usize,
    pub success: Seq<Option<bool>>,
    pub activity: Activity,
}

impl View for Debugger {
    type V = DebuggerView;

    open spec fn view(&self) -> DebuggerView {
        DebuggerView {
            current: self.current_step,
            success: self.step_success@,
            activity: self.activity,
        }
    }
}

impl DebuggerView {
    /// The state at the start: nothing has run, and the first step is current.
    pub open spec fn fresh(n: nat) -> DebuggerView {
        DebuggerView {
            current: 0,
            success: Seq::new(n, |i: int| None),
            activity: Activity::Idle,
        }
    }

    /// The states that a debugger of a job with `n` steps can be in: there is one
    /// mark for each step, and whatever is under way is about a step of the job.
    pub open spec fn valid(self, n: nat) -> bool {
        &&& self.success.len() == n
        &&& self.activity != Activity::Idle ==> self.current < n
    }

    /// Whether the current step is a step of the job.
    pub open spec fn in_bounds(self) -> bool {
        self.current < self.success.len()
    }

    /// Whether the debugger can act on a line: no step has the number zero, and
    /// the next step can only run if there is one.
    pub open spec fn takes(self, line: Seq<char>) -> bool {
        &&& !asks_for_step_zero(line)
        &&& entry_of(line, self.current) == Entry::Command(DebuggerCommand::Next)
            ==> self.in_bounds()
    }

    pub open spec fn at(self, current: usize, activity: Activity) -> DebuggerView {
        DebuggerView { current, success: self.success, activity }
    }

    /// What a command leads to.
    pub open spec fn obey(self, command: DebuggerCommand) -> (DebuggerView, DebuggerTask) {
        match command {
            DebuggerCommand::Quit => (self, DebuggerTask::Quit),
            DebuggerCommand::Next => (
                self.at(self.current, Activity::Next),
                DebuggerTask::Execute { step_idx: self.current },
            ),
            DebuggerCommand::Continue { step_idx } => if step_idx < self.success.len() {
                (self.at(step_idx, Activity::Continue), DebuggerTask::Execute { step_idx })
            } else {
                (self.at(step_idx, Activity::Idle), DebuggerTask::ReadLine)
            },
            DebuggerCommand::Ssh { step_idx } => if step_idx < self.success.len() {
                (self.at(step_idx, Activity::Shell), DebuggerTask::OpenShell { step_idx })
            } else {
                (self, DebuggerTask::ReadLine)
            },
            DebuggerCommand::Move { step_idx } => if step_idx < self.success.len() {
                (self.at(step_idx, Activity::Idle), DebuggerTask::ReadLine)
            } else {
                (self, DebuggerTask::ReadLine)
            },
        }
    }

    /// What a line leads to.
    pub open spec fn after_line(self, line: Seq<char>) -> (DebuggerView, DebuggerTask) {
        match entry_of(line, self.current) {
            Entry::Command(command) => self.obey(command),
            _ => (self, DebuggerTask::ReadLine),
        }
    }

    /// What the end of a step's run leads to. Success moves on to the next step,
    /// if there is one, and a run from step to step goes on there; failure stays.
    pub open spec fn after_step(self, exit_code: u32) -> (DebuggerView, DebuggerTask) {
        let success = self.success.update(self.current as int, Some(exit_code == 0));
        if exit_code == 0 && self.current + 1 < self.success.len() {
            let next = (self.current + 1) as usize;
            if self.activity == Activity::Continue {
                (
                    DebuggerView { current: next, success, activity: Activity::Continue },
                    DebuggerTask::Execute { step_idx: next },
                )
            } else {
                (
                    DebuggerView { current: next, success, activity: Activity::Idle },
                    DebuggerTask::ReadLine,
                )
            }
        } else {
            (
                DebuggerView { current: self.current, success, activity: Activity::Idle },
                DebuggerTask::ReadLine,
            )
        }
    }

    /// What the end of an interactive shell leads to.
    pub open spec fn after_shell(self) -> DebuggerView {
        self.at(self.current, Activity::Idle)
    }
}

/// What is printed when a command is taken up, in a job with `n` steps.
pub open spec fn notice(command: DebuggerCommand, n: nat) -> Seq<char> {
    match command {
        DebuggerCommand::Quit => Seq::empty(),
        DebuggerCommand::Next => "Executing next.\n"@,
        DebuggerCommand::Continue { step_idx } => "Executing continue on "@ + text::decimal(
            step_idx as nat,
        ) + "\n"@,
        DebuggerCommand::Ssh { step_idx } => "Executing ssh on "@ + text::decimal(step_idx as nat)
            + "\n"@,
        DebuggerCommand::Move { step_idx } => {
            let taken = "Executing move on "@ + text::decimal(step_idx as nat) + "\n"@;
            if step_idx < n {
                taken
            } else {
                taken + "Step "@ + text::decimal(step_idx as nat) + " is out of bounds.\n"@
            }
        },
    }
}

/// What is printed when a line is taken, while `current` is the current step of
/// a job with `n` steps.
pub open spec fn line_notice(line: Seq<char>, current: usize, n: nat) -> Seq<char> {
    match entry_of(line, current) {
        Entry::Blank => Seq::empty(),
        Entry::Unknown => "Unknown command: "@ + text::trim(line) + "\n"@,
        Entry::Command(command) => notice(command, n),
    }
}

/// The mark of a step.
pub open spec fn mark(success: Option<bool>) -> Seq<char> {
    match success {
        Some(true) => "✔"@,
        Some(false) => "✘"@,
        None => "?"@,
    }
}

/// What the screen shows of step `i`.
pub open spec fn step_entry<S>(step: StepConfig<S>, success: Option<bool>, current: usize, i: int) -> Seq<
    char,
> {
    (if i == current { ">"@ } else { " "@ }) + " "@ + mark(success) + " ("@ + text::decimal(
        (i + 1) as nat,
    ) + ") "@ + step.name@ + "\n\t\""@ + step.command@ + "\"\n\n"@
}

/// What the screen shows of the first `k` steps.
pub open spec fn step_entries<S>(steps: Seq<StepConfig<S>>, d: DebuggerView, k: int) -> Seq<char>
    decreases k,
{
    if k <= 0 {
        Seq::empty()
    } else {
        step_entries(steps, d, k - 1) + step_entry(steps[k - 1], d.success[k - 1], d.current, k - 1)
    }
}

/// The screen above the prompt, and the prompt.
pub open spec fn screen<I, S>(job: JobConfig<I, S>, d: DebuggerView) -> Seq<char> {
    "Job: "@ + job.name@ + "\nSteps:\n"@ + step_entries(
        job.steps@,
        d,
        job.steps@.len() as int,
    ) + "You can open a (s)hell, (m)ove, (n)ext, (c)ontinue, or (q)uit.\n> "@
}

/// Puts a number between two texts.
fn around_number(before: &str, n: usize, after: &str) -> (r: String)
    ensures
        r@ == before@ + text::decimal(n as nat) + after@,
{
    let mut r = before.to_owned();
    r.append(decimal_text(n).as_str());
    r.append(after);
    r
}

/// What the screen shows of step `i`.
fn step_text<S>(step: &StepConfig<S>, success: Option<bool>, current: usize, i: usize) -> (r: String)
    requires
        i < usize::MAX,
    ensures
        r@ == step_entry(*step, success, current, i as int),
{
    let mut out = (if i == current { ">" } else { " " }).to_owned();
    out.append(" ");
    match success {
        Some(true) => out.append("✔"),
        Some(false) => out.append("✘"),
        None => out.append("?"),
    }
    out.append(" (");
    out.append(decimal_text(i + 1).as_str());
    out.append(") ");
    out.append(step.name.as_str());
    out.append("\n\t\"");
    out.append(step.command.as_str());
    out.append("\"\n\n");
    out
}

impl Debugger {
    /// A debugger for a job with `n` steps.
    pub fn new(n: usize) -> (r: Debugger)
        ensures
            r@ == DebuggerView::fresh(n as nat),
            r@.valid(n as nat),
    {
        let mut step_success: Vec<Option<bool>> = Vec::new();
        while step_success.len() < n
            invariant
                step_success@.len() <= n,
                step_success@ == Seq::new(step_success@.len(), |i: int| None::<bool>),
            decreases n - step_success@.len(),
        {
            step_success.push(None);
        }
        Debugger { current_step: 0, step_success, activity: Activity::Idle }
    }

    /// Whether the debugger can act on a line.
    pub fn can_take(&self, line: &str) -> (r: bool)
        ensures
            r == self@.takes(line@),
    {
        if is_step_zero(line) {
            return false;
        }
        match read_entry(line, self.current_step) {
            Entry::Command(DebuggerCommand::Next) => self.current_step < self.step_success.len(),
            _ => true,
        }
    }

    /// Takes a line typed at the prompt. Returns what to print about it and what to
    /// do next.
    pub fn take_line(&mut self, line: &str) -> (r: (String, DebuggerTask))
        requires
            old(self)@.activity == Activity::Idle,
            old(self)@.takes(line@),
        ensures
            final(self)@ == old(self)@.after_line(line@).0,
            r.1 == old(self)@.after_line(line@).1,
            r.0@ == line_notice(line@, old(self)@.current, old(self)@.success.len()),
            final(self)@.valid(old(self)@.success.len()),
    {
        match read_entry(line, self.current_step) {
            Entry::Blank => (String::new(), DebuggerTask::ReadLine),
            Entry::Unknown => {
                let mut out = "Unknown command: ".to_owned();
                out.append(trim_text(line).as_str());
                out.append("\n");
                (out, DebuggerTask::ReadLine)
            },
            Entry::Command(command) => self.execute(command),
        }
    }

    /// Takes up a command.
    pub fn execute(&mut self, command: DebuggerCommand) -> (r: (String, DebuggerTask))
        requires
            old(self)@.activity == Activity::Idle,
            command == DebuggerCommand::Next ==> old(self)@.in_bounds(),
        ensures
            final(self)@ == old(self)@.obey(command).0,
            r.1 == old(self)@.obey(command).1,
            r.0@ == notice(command, old(self)@.success.len()),
            final(self)@.valid(old(self)@.success.len()),
    {
        let n = self.step_success.len();
        match command {
            DebuggerCommand::Quit => (String::new(), DebuggerTask::Quit),
            DebuggerCommand::Next => {
                self.activity = Activity::Next;
                (
                    "Executing next.\n".to_owned(),
                    DebuggerTask::Execute { step_idx: self.current_step },
                )
            },
            DebuggerCommand::Continue { step_idx } => {
                let out = around_number("Executing continue on ", step_idx, "\n");
                self.current_step = step_idx;
                if step_idx < n {
                    self.activity = Activity::Continue;
                    (out, DebuggerTask::Execute { step_idx })
                } else {
                    (out, DebuggerTask::ReadLine)
                }
            },
            DebuggerCommand::Ssh { step_idx } => {
                let out = around_number("Executing ssh on ", step_idx, "\n");
                if step_idx < n {
                    self.current_step = step_idx;
                    self.activity = Activity::Shell;
                    (out, DebuggerTask::OpenShell { step_idx })
                } else {
                    (out, DebuggerTask::ReadLine)
                }
            },
            DebuggerCommand::Move { step_idx } => {
                let mut out = around_number("Executing move on ", step_idx, "\n");
                if step_idx < n {
                    self.current_step = step_idx;
                } else {
                    out.append("Step ");
                    out.append(decimal_text(step_idx).as_str());
                    out.append(" is out of bounds.\n");
                }
                (out, DebuggerTask::ReadLine)
            },
        }
    }

    /// Takes the exit code of the step that was run.
    pub fn step_finished(&mut self, exit_code: u32) -> (r: DebuggerTask)
        requires
            old(self)@.valid(old(self)@.success.len()),
            old(self)@.activity == Activity::Next || old(self)@.activity == Activity::Continue,
        ensures
            final(self)@ == old(self)@.after_step(exit_code).0,
            r == old(self)@.after_step(exit_code).1,
            final(self)@.valid(old(self)@.success.len()),
    {
        let current = self.current_step;
        let n = self.step_success.len();
        self.step_success.set(current, Some(exit_code == 0));
        if exit_code == 0 && current + 1 < n {
            self.current_step = current + 1;
            match self.activity {
                Activity::Continue => DebuggerTask::Execute { step_idx: current + 1 },
                _ => {
                    self.activity = Activity::Idle;
                    DebuggerTask::ReadLine
                },
            }
        } else {
            self.activity = Activity::Idle;
            DebuggerTask::ReadLine
        }
    }

    /// Takes the end of the interactive shell.
    pub fn shell_closed(&mut self) -> (r: DebuggerTask)
        requires
            old(self)@.valid(old(self)@.success.len()),
            old(self)@.activity == Activity::Shell,
        ensures
            final(self)@ == old(self)@.after_shell(),
            r == DebuggerTask::ReadLine,
            final(self)@.valid(old(self)@.success.len()),
    {
        self.activity = Activity::Idle;
        DebuggerTask::ReadLine
    }

    /// What the screen shows before a line is read.
    pub fn show<I, S>(&self, job: &JobConfig<I, S>) -> (r: String)
        requires
            self@.success.len() == job.steps@.len(),
        ensures
            r@ == screen(*job, self@),
    {
        let mut out = "Job: ".to_owned();
        out.append(job.name.as_str());
        out.append("\nSteps:\n");
        let ghost head = out@;
        let mut i: usize = 0;
        assert(out@ == head + step_entries(job.steps@, self@, 0));
        while i < job.steps.len()
            invariant
                i <= job.steps@.len(),
                self@.success.len() == job.steps@.len(),
                out@ == head + step_entries(job.steps@, self@, i as int),
            decreases job.steps@.len() - i,
        {
            let entry = step_text(&job.steps[i], self.step_success[i], self.current_step, i);
            out.append(entry.as_str());
            i = i + 1;
            assert(out@ == head + step_entries(job.steps@, self@, i as int));
        }
        out.append("You can open a (s)hell, (m)ove, (n)ext, (c)ontinue, or (q)uit.\n> ");
        out
    }
}

/// The state after steps have ended with these exit codes, one after the other.
pub open spec fn after_steps(d: DebuggerView, codes: Seq<u32>) -> DebuggerView
    decreases codes.len(),
{
    if codes.len() == 0 {
        d
    } else {
        after_steps(d, codes.drop_last()).after_step(codes.last()).0
    }
}

/// Whether all of the exit codes say success.
pub open spec fn all_succeed(codes: Seq<u32>) -> bool {
    forall|k: int| 0 <= k < codes.len() ==> #[trigger] codes[k] == 0
}

/// `continue` runs the steps from the one it names, in order, until one fails or
/// the last has run. While they succeed it is at the next step in line; when it is
/// over, the step that ended it is current. Each step that ran is marked by its
/// exit code, and every other mark stays.
pub proof fn continue_runs_until_failure_or_end(d: DebuggerView, from: usize, codes: Seq<u32>)
    requires
        from < d.success.len() <= usize::MAX,
        codes.len() <= d.success.len() - from,
        codes.len() > 0 ==> all_succeed(codes.drop_last()),
    ensures
        ({
            let n = d.success.len();
            let r = after_steps(d.obey(DebuggerCommand::Continue { step_idx: from }).0, codes);
            &&& all_succeed(codes) && codes.len() < n - from ==> r.activity == Activity::Continue
                && r.current == from + codes.len()
            &&& !all_succeed(codes) || codes.len() == n - from ==> r.activity == Activity::Idle
                && r.current == from + codes.len() - 1
            &&& r.success.len() == n
            &&& forall|j: int|
                0 <= j < n ==> #[trigger] r.success[j] == (if from <= j < from + codes.len() {
                    Some(codes[j - from] == 0)
                } else {
                    d.success[j]
                })
        }),
    decreases codes.len(),
{
    if codes.len() > 0 {
        let front = codes.drop_last();
        if front.len() > 0 {
            assert forall|k: int| 0 <= k < front.drop_last().len() implies #[trigger] front.drop_last()[k]
                == 0 by {
                assert(front[k] == 0);
            }
        }
        continue_runs_until_failure_or_end(d, from, front);
        assert(codes[codes.len() - 1] == codes.last());
        if codes.last() == 0 {
            assert forall|k: int| 0 <= k < codes.len() implies #[trigger] codes[k] == 0 by {
                if k < front.len() {
                    assert(front[k] == 0);
                }
            }
        }
        assert forall|j: int| from <= j < from + front.len() implies front[j - from] == #[trigger] codes[j
            - from] by {}
    }
}

/// No command changes the mark of a step, and the end of a step changes the mark
/// of that step alone.
pub proof fn only_a_run_changes_a_mark(d: DebuggerView, line: Seq<char>, exit_code: u32)
    requires
        d.valid(d.success.len()),
    ensures
        d.after_line(line).0.success == d.success,
        d.activity != Activity::Idle ==> {
            let after = d.after_step(exit_code).0.success;
            &&& after.len() == d.success.len()
            &&& after[d.current as int] == Some(exit_code == 0)
            &&& forall|j: int|
                0 <= j < d.success.len() && j != d.current ==> #[trigger] after[j] == d.success[j]
        },
{
}

/// The current step stays a step of the job, except where `continue` is told to go
/// on from a step that the job does not have.
pub proof fn current_step_stays_in_bounds(d: DebuggerView, line: Seq<char>, exit_code: u32)
    requires
        d.in_bounds(),
        entry_of(line, d.current) matches Entry::Command(
            DebuggerCommand::Continue { step_idx },
        ) ==> step_idx < d.success.len(),
    ensures
        d.after_line(line).0.in_bounds(),
        d.after_step(exit_code).0.in_bounds(),
        d.after_shell().in_bounds(),
{
}

/// Whether a word names a command.
pub open spec fn names_a_command(w: Seq<char>) -> bool {
    names_shell(w) || names_move(w) || names_continue(w) || names_next(w) || names_quit(w)
}

/// Whether two lines ask for the same: both are blank, both name no command, or both name
/// the same command, by its short or by its long name, and give the same step number where
/// the command takes one.
pub open spec fn lines_alike(a: Seq<char>, b: Seq<char>) -> bool {
    let v = text::words(a);
    let w = text::words(b);
    if v.len() == 0 || w.len() == 0 {
        v.len() == w.len()
    } else {
        ||| !names_a_command(v[0]) && !names_a_command(w[0])
        ||| names_next(v[0]) && names_next(w[0])
        ||| names_quit(v[0]) && names_quit(w[0])
        ||| argument(v) == argument(w) && {
            ||| names_shell(v[0]) && names_shell(w[0])
            ||| names_move(v[0]) && names_move(w[0])
            ||| names_continue(v[0]) && names_continue(w[0])
        }
    }
}

/// No word names two commands.
proof fn names_are_distinct(w: Seq<char>)
    ensures
        names_shell(w) ==> w[0] == 's',
        names_move(w) ==> w[0] == 'm',
        names_continue(w) ==> w[0] == 'c',
        names_next(w) ==> w[0] == 'n',
        names_quit(w) ==> w[0] == 'q',
{
    reveal_strlit("s");
    reveal_strlit("shell");
    reveal_strlit("m");
    reveal_strlit("move");
    reveal_strlit("c");
    reveal_strlit("continue");
    reveal_strlit("n");
    reveal_strlit("next");
    reveal_strlit("q");
    reveal_strlit("quit");
}

/// Lines that ask for the same are taken for the same, whatever the state: they are
/// accepted alike, lead to the same state and the same task, and the same is printed about
/// them, except that a line that names no command is quoted.
pub proof fn lines_that_mean_the_same(d: DebuggerView, a: Seq<char>, b: Seq<char>)
    requires
        lines_alike(a, b),
    ensures
        asks_for_step_zero(a) == asks_for_step_zero(b),
        entry_of(a, d.current) == entry_of(b, d.current),
        d.takes(a) == d.takes(b),
        d.after_line(a) == d.after_line(b),
        entry_of(a, d.current) != Entry::Unknown ==> line_notice(a, d.current, d.success.len())
            == line_notice(b, d.current, d.success.len()),
{
    if text::words(a).len() > 0 {
        names_are_distinct(text::words(a)[0]);
        names_are_distinct(text::words(b)[0]);
    }
}

/// White space around a line makes no difference, not even to what is printed.
pub proof fn white_space_around_a_line(
    d: DebuggerView,
    before: Seq<char>,
    line: Seq<char>,
    after: Seq<char>,
)
    requires
        forall|k: int| 0 <= k < before.len() ==> text::white(#[trigger] before[k]),
        forall|k: int| 0 <= k < after.len() ==> text::white(#[trigger] after[k]),
    ensures
        ({
            let padded = before + line + after;
            &&& lines_alike(padded, line)
            &&& asks_for_step_zero(padded) == asks_for_step_zero(line)
            &&& d.takes(padded) == d.takes(line)
            &&& d.after_line(padded) == d.after_line(line)
            &&& line_notice(padded, d.current, d.success.len()) == line_notice(
                line,
                d.current,
                d.success.len(),
            )
        }),
{
    text::white_space_around(before, line, after);
}

/// A line that is blank, or that names no command, changes nothing, and neither
/// does moving, or opening a shell, outside of the job.
pub proof fn lines_without_effect(d: DebuggerView, line: Seq<char>)
    requires
        match entry_of(line, d.current) {
            Entry::Blank => true,
            Entry::Unknown => true,
            Entry::Command(DebuggerCommand::Move { step_idx }) => step_idx >= d.success.len(),
            Entry::Command(DebuggerCommand::Ssh { step_idx }) => step_idx >= d.success.len(),
            _ => false,
        },
    ensures
        d.after_line(line) == (d, DebuggerTask::ReadLine),
{
}

/// The number that the screen shows beside a step is the number by which a
/// command finds that step.
pub proof fn shown_number_finds_step(name: Seq<char>, i: usize, current: usize)
    requires
        i < usize::MAX,
        names_shell(name) || names_move(name) || names_continue(name),
    ensures
        ({
            let line = name + " "@ + text::decimal((i + 1) as nat);
            &&& !asks_for_step_zero(line)
            &&& names_shell(name) ==> entry_of(line, current) == Entry::Command(
                DebuggerCommand::Ssh { step_idx: i },
            )
            &&& names_move(name) ==> entry_of(line, current) == Entry::Command(
                DebuggerCommand::Move { step_idx: i },
            )
            &&& names_continue(name) ==> entry_of(line, current) == Entry::Command(
                DebuggerCommand::Continue { step_idx: i },
            )
        }),
{
    let n: usize = (i + 1) as usize;
    let line = name + " "@ + text::decimal((i + 1) as nat);
    reveal_strlit("s");
    reveal_strlit("shell");
    reveal_strlit("m");
    reveal_strlit("move");
    reveal_strlit("c");
    reveal_strlit("continue");
    reveal_strlit(" ");
    text::decimal_is_a_word(n as nat);
    text::number_read_back(n);
    assert(" "@ == seq![' ']);
    text::two_words(name, text::decimal(n as nat));
    assert(text::words(line) == seq![name, text::decimal(n as nat)]);
    assert(name[0] == 's' || name[0] == 'm' || name[0] == 'c');
}

} // verus!
