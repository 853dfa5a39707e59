//! What the debugger's commands are for, and what a person sees of them.

use crate::config::JobConfig;
use crate::config::StepConfig;
use crate::debug::debugger;
use crate::debug::debugger::Activity;
use crate::debug::debugger::DebuggerCommand;
use crate::debug::debugger::DebuggerTask;
use crate::debug::debugger::DebuggerView;
use crate::debug::debugger::Entry;
use crate::text;
use vstd::prelude::*;

verus! {

/// A debugger starts at the first step, and nothing is known of any step.
pub proof fn debugger_starts_at_the_first_step(n: nat)
    ensures
        DebuggerView::fresh(n).current == 0,
        DebuggerView::fresh(n).success.len() == n,
        forall|i: int|
            0 <= i < n ==> #[trigger] DebuggerView::fresh(n).success[i] == None::<bool>,
        DebuggerView::fresh(n).activity == Activity::Idle,
{
}

/// The step that the second word of a line asks for, counted from zero, or else the
/// current one.
pub open spec fn step_asked_for(line: Seq<char>, current: usize) -> int {
    let w = text::words(line);
    if w.len() > 1 && text::number_of(w[1]) is Ok {
        text::number_of(w[1])->Ok_0 - 1
    } else {
        current as int
    }
}

/// What a line is goes by its first word: each command has two names, a line without words
/// is blank, and any other word names no command. A shell, a move and a continuation are
/// about the step whose number, counted from one, is the second word, or about the current
/// step if the second word is no number.
pub proof fn commands_by_their_names(line: Seq<char>, current: usize)
    requires
        step_asked_for(line, current) >= 0,
    ensures
        ({
            let w = text::words(line);
            let e = debugger::entry_of(line, current);
            let asked = step_asked_for(line, current) as usize;
            &&& w.len() == 0 <==> e == Entry::Blank
            &&& w.len() > 0 ==> {
                &&& (w[0] == "s"@ || w[0] == "shell"@) <==> e == Entry::Command(
                    DebuggerCommand::Ssh { step_idx: asked },
                )
                &&& (w[0] == "m"@ || w[0] == "move"@) <==> e == Entry::Command(
                    DebuggerCommand::Move { step_idx: asked },
                )
                &&& (w[0] == "c"@ || w[0] == "continue"@) <==> e == Entry::Command(
                    DebuggerCommand::Continue { step_idx: asked },
                )
                &&& (w[0] == "n"@ || w[0] == "next"@) <==> e == Entry::Command(
                    DebuggerCommand::Next,
                )
                &&& (w[0] == "q"@ || w[0] == "quit"@) <==> e == Entry::Command(
                    DebuggerCommand::Quit,
                )
            }
        }),
{
    reveal_strlit("s");
    reveal_strlit("shell");
    reveal_strlit("m");
    reveal_strlit("move");
    reveal_strlit("c");
    reveal_strlit("continue");
    reveal_strlit("n");
    reveal_strlit("next");
    reveal_strlit("q");
    reveal_strlit("quit");
    let w = text::words(line);
    if w.len() > 0 {
        let f = w[0];
        assert(f == "s"@ || f == "shell"@ ==> f[0] == 's');
        assert(f == "m"@ || f == "move"@ ==> f[0] == 'm');
        assert(f == "c"@ || f == "continue"@ ==> f[0] == 'c');
        assert(f == "n"@ || f == "next"@ ==> f[0] == 'n');
        assert(f == "q"@ || f == "quit"@ ==> f[0] == 'q');
    }
}

/// Every line is acted on but two sorts: one that gives a shell, a move or a continuation
/// the step number zero, and one that asks for the next step where there is no current one.
pub proof fn lines_that_are_acted_on(d: DebuggerView, line: Seq<char>)
    ensures
        ({
            let w = text::words(line);
            let takes_step = w.len() > 0 && (w[0] == "s"@ || w[0] == "shell"@ || w[0] == "m"@
                || w[0] == "move"@ || w[0] == "c"@ || w[0] == "continue"@);
            let zero = takes_step && w.len() > 1 && text::number_of(w[1]) == Ok::<
                usize,
                text::NumberError,
            >(0);
            let next = w.len() > 0 && (w[0] == "n"@ || w[0] == "next"@);
            d.takes(line) <==> !zero && (next ==> d.current < d.success.len())
        }),
{
    reveal_strlit("s");
    reveal_strlit("shell");
    reveal_strlit("m");
    reveal_strlit("move");
    reveal_strlit("c");
    reveal_strlit("continue");
    reveal_strlit("n");
    reveal_strlit("next");
    reveal_strlit("q");
    reveal_strlit("quit");
    let w = text::words(line);
    if w.len() > 0 {
        let f = w[0];
        assert(f == "s"@ || f == "shell"@ ==> f[0] == 's');
        assert(f == "m"@ || f == "move"@ ==> f[0] == 'm');
        assert(f == "c"@ || f == "continue"@ ==> f[0] == 'c');
        assert(f == "n"@ || f == "next"@ ==> f[0] == 'n');
    }
}

/// From any state in which a step of the job is current, `next` runs that step alone. When
/// it ends with exit code zero the step after it is current, if there is one, and with any
/// other exit code, or at the end of the job, the same step stays current. The step is
/// marked by its exit code, and a line is read next.
pub proof fn next_runs_one_step_and_moves_on(d: DebuggerView, line: Seq<char>, exit_code: u32)
    requires
        d.in_bounds(),
        d.success.len() <= usize::MAX,
        text::words(line).len() > 0,
        text::words(line)[0] == "n"@ || text::words(line)[0] == "next"@,
    ensures
        ({
            let n = d.success.len();
            let i = d.current;
            let (running, run) = d.after_line(line);
            let (after, then) = running.after_step(exit_code);
            &&& d.takes(line)
            &&& run == (DebuggerTask::Execute { step_idx: i })
            &&& running.current == i
            &&& running.success == d.success
            &&& running.activity == Activity::Next
            &&& then == DebuggerTask::ReadLine
            &&& after.activity == Activity::Idle
            &&& exit_code == 0 && i + 1 < n ==> after.current == i + 1
            &&& exit_code == 0 && i + 1 == n ==> after.current == i
            &&& exit_code != 0 ==> after.current == i
            &&& after.success.len() == n
            &&& after.success[i as int] == Some(exit_code == 0)
            &&& forall|j: int|
                0 <= j < n && j != i ==> #[trigger] after.success[j] == d.success[j]
        }),
{
    commands_by_their_names_next(line, d.current);
}

/// The names of `next`.
proof fn commands_by_their_names_next(line: Seq<char>, current: usize)
    requires
        text::words(line).len() > 0,
        text::words(line)[0] == "n"@ || text::words(line)[0] == "next"@,
    ensures
        debugger::entry_of(line, current) == Entry::Command(DebuggerCommand::Next),
        !debugger::asks_for_step_zero(line),
{
    reveal_strlit("s");
    reveal_strlit("shell");
    reveal_strlit("m");
    reveal_strlit("move");
    reveal_strlit("c");
    reveal_strlit("continue");
    reveal_strlit("n");
    reveal_strlit("next");
    assert(text::words(line)[0][0] == 'n');
}

/// `continue` runs the step that it is told first. After each success it runs the step
/// behind that one, and after a failure, or behind the last step, it reads a line. Told to
/// go on from a step that the job does not have, it runs nothing: that step is current, no
/// mark changes, and a line is read.
pub proof fn continue_runs_step_after_step(
    d: DebuggerView,
    from: usize,
    codes: Seq<u32>,
    exit_code: u32,
)
    requires
        d.success.len() <= usize::MAX,
        from < d.success.len() ==> codes.len() < d.success.len() - from,
        debugger::all_succeed(codes),
    ensures
        ({
            let n = d.success.len();
            let (first, task) = d.obey(DebuggerCommand::Continue { step_idx: from });
            let now = debugger::after_steps(first, codes);
            let (after, then) = now.after_step(exit_code);
            let at = from + codes.len();
            &&& from >= n ==> task == DebuggerTask::ReadLine && first.current == from
                && first.success == d.success && first.activity == Activity::Idle
            &&& from < n ==> {
                &&& task == (DebuggerTask::Execute { step_idx: from })
                &&& first.current == from && first.activity == Activity::Continue
                &&& now.current == at && now.activity == Activity::Continue
                &&& exit_code == 0 && at + 1 < n ==> then == (DebuggerTask::Execute {
                    step_idx: (at + 1) as usize,
                }) && after.current == at + 1 && after.activity == Activity::Continue
                &&& exit_code != 0 || at + 1 == n ==> then == DebuggerTask::ReadLine
                    && after.current == at && after.activity == Activity::Idle
                &&& after.success[at as int] == Some(exit_code == 0)
            }
        }),
{
    if from < d.success.len() {
        if codes.len() > 0 {
            assert forall|k: int| 0 <= k < codes.drop_last().len() implies #[trigger] codes.drop_last()[k]
                == 0 by {
                assert(codes[k] == 0);
            }
        }
        debugger::continue_runs_until_failure_or_end(d, from, codes);
    }
}

/// Moving makes a step of the job current and does nothing else; a shell makes it current
/// and is opened for it, and when it is left the same step is current and a line can be
/// taken again. Neither does anything for a step that the job does not have. Leaving the
/// debugger changes nothing.
pub proof fn moving_and_shells(d: DebuggerView, i: usize)
    requires
        d.activity == Activity::Idle,
    ensures
        ({
            let n = d.success.len();
            let (moved, m) = d.obey(DebuggerCommand::Move { step_idx: i });
            let (opened, s) = d.obey(DebuggerCommand::Ssh { step_idx: i });
            let (left, q) = d.obey(DebuggerCommand::Quit);
            let closed = opened.after_shell();
            &&& m == DebuggerTask::ReadLine
            &&& moved.success == d.success && moved.activity == Activity::Idle
            &&& moved.current == (if i < n {
                i
            } else {
                d.current
            })
            &&& opened.success == d.success
            &&& i < n ==> s == (DebuggerTask::OpenShell { step_idx: i }) && opened.current == i
                && opened.activity == Activity::Shell
            &&& i >= n ==> s == DebuggerTask::ReadLine && opened.current == d.current
                && opened.activity == Activity::Idle
            &&& closed.success == d.success && closed.current == opened.current
                && closed.activity == Activity::Idle
            &&& q == DebuggerTask::Quit && left == d
        }),
{
}

/// What is asked for is always about the step that is current then, which is a step of the
/// job.
pub proof fn tasks_are_about_the_current_step(d: DebuggerView, line: Seq<char>, exit_code: u32)
    requires
        d.takes(line),
        d.success.len() <= usize::MAX,
    ensures
        ({
            let (v, task) = d.after_line(line);
            &&& task matches DebuggerTask::Execute { step_idx } ==> step_idx == v.current
                && v.in_bounds() && (v.activity == Activity::Next || v.activity
                == Activity::Continue)
            &&& task matches DebuggerTask::OpenShell { step_idx } ==> step_idx == v.current
                && v.in_bounds() && v.activity == Activity::Shell
        }),
        d.in_bounds() ==> {
            let (v, task) = d.after_step(exit_code);
            task matches DebuggerTask::Execute { step_idx } ==> step_idx == v.current
                && v.in_bounds() && v.activity == Activity::Continue
        },
{
}

/// What is printed about a line names the command and the step that it is about, counted
/// from zero; a move outside of the job is said to be one, and a line that names no command
/// is quoted without the white space around it.
pub proof fn what_is_printed_about_a_line(line: Seq<char>, current: usize, i: usize, n: nat)
    ensures
        ({
            let said = debugger::line_notice(line, current, n);
            let e = debugger::entry_of(line, current);
            &&& e == Entry::Blank || e == Entry::Command(DebuggerCommand::Quit) ==> said == Seq::<
                char,
            >::empty()
            &&& e == Entry::Unknown ==> said == "Unknown command: "@ + text::trim(line) + "\n"@
            &&& e == Entry::Command(DebuggerCommand::Next) ==> said == "Executing next.\n"@
            &&& e == Entry::Command(DebuggerCommand::Continue { step_idx: i }) ==> said
                == "Executing continue on "@ + text::decimal(i as nat) + "\n"@
            &&& e == Entry::Command(DebuggerCommand::Ssh { step_idx: i }) ==> said
                == "Executing ssh on "@ + text::decimal(i as nat) + "\n"@
            &&& e == Entry::Command(DebuggerCommand::Move { step_idx: i }) && i < n ==> said
                == "Executing move on "@ + text::decimal(i as nat) + "\n"@
            &&& e == Entry::Command(DebuggerCommand::Move { step_idx: i }) && i >= n ==> said
                == "Executing move on "@ + text::decimal(i as nat) + "\n"@ + "Step "@
                + text::decimal(i as nat) + " is out of bounds.\n"@
        }),
{
}

/// What the screen shows of a step starts with the cursor, which is there if and only if the
/// step is current, and with the mark, which goes by what is known of that step alone,
/// whether or not it is current: a check mark if and only if its last run succeeded, a cross
/// if and only if it failed, and a question mark if and only if it never ran.
pub proof fn mark_tells_what_is_known<S>(
    step: StepConfig<S>,
    known: Option<bool>,
    current: usize,
    i: int,
)
    ensures
        ({
            let shown = debugger::step_entry(step, known, current, i);
            &&& shown.len() > 3
            &&& shown[0] == '>' <==> i == current
            &&& shown[0] == ' ' <==> i != current
            &&& shown[1] == ' '
            &&& shown[2] == '✔' <==> known == Some(true)
            &&& shown[2] == '✘' <==> known == Some(false)
            &&& shown[2] == '?' <==> known is None
        }),
{
    reveal_strlit(">");
    reveal_strlit(" ");
    reveal_strlit("✔");
    reveal_strlit("✘");
    reveal_strlit("?");
    reveal_strlit(" (");
}

/// The screen names the job, shows every step of it in order, each with the cursor, its
/// mark, its number, its name and its command, and ends with the prompt.
pub proof fn screen_shows_every_step<I, S>(job: JobConfig<I, S>, d: DebuggerView)
    requires
        d.success.len() == job.steps@.len(),
    ensures
        debugger::screen(job, d) == "Job: "@ + job.name@ + "\nSteps:\n"@ + Seq::new(
            job.steps@.len(),
            |i: int|
                (if i == d.current {
                    ">"@
                } else {
                    " "@
                }) + " "@ + (match d.success[i] {
                    Some(true) => "✔"@,
                    Some(false) => "✘"@,
                    None => "?"@,
                }) + " ("@ + text::decimal((i + 1) as nat) + ") "@ + job.steps@[i].name@
                    + "\n\t\""@ + job.steps@[i].command@ + "\"\n\n"@,
        ).flatten()
            + "You can open a (s)hell, (m)ove, (n)ext, (c)ontinue, or (q)uit.\n> "@,
{
    let shown = Seq::new(
        job.steps@.len(),
        |i: int|
            (if i == d.current {
                ">"@
            } else {
                " "@
            }) + " "@ + (match d.success[i] {
                Some(true) => "✔"@,
                Some(false) => "✘"@,
                None => "?"@,
            }) + " ("@ + text::decimal((i + 1) as nat) + ") "@ + job.steps@[i].name@ + "\n\t\""@
                + job.steps@[i].command@ + "\"\n\n"@,
    );
    entries_are_flat(job.steps@, d, shown, job.steps@.len() as int);
    assert(shown.take(shown.len() as int) == shown);
}

proof fn entries_are_flat<S>(
    steps: Seq<StepConfig<S>>,
    d: DebuggerView,
    shown: Seq<Seq<char>>,
    k: int,
)
    requires
        0 <= k <= steps.len() == shown.len(),
        forall|i: int|
            0 <= i < steps.len() ==> #[trigger] shown[i] == debugger::step_entry(
                steps[i],
                d.success[i],
                d.current,
                i,
            ),
    ensures
        debugger::step_entries(steps, d, k) == shown.take(k).flatten(),
    decreases k,
{
    if k > 0 {
        entries_are_flat(steps, d, shown, k - 1);
        text::flatten_one_more(shown, k - 1);
    }
}

/// A line leads to what its command leads to; a blank line, and one that names no command,
/// lead to nothing but another line.
pub proof fn lines_lead_to_their_commands(d: DebuggerView, line: Seq<char>, i: usize)
    requires
        d.activity == Activity::Idle,
    ensures
        ({
            let n = d.success.len();
            let e = debugger::entry_of(line, d.current);
            let (v, task) = d.after_line(line);
            &&& e == Entry::Blank || e == Entry::Unknown ==> v == d && task
                == DebuggerTask::ReadLine
            &&& e == Entry::Command(DebuggerCommand::Quit) ==> v == d && task == DebuggerTask::Quit
            &&& e == Entry::Command(DebuggerCommand::Move { step_idx: i }) ==> v.current == (
            if i < n {
                i
            } else {
                d.current
            }) && v.activity == Activity::Idle && task == DebuggerTask::ReadLine
            &&& e == Entry::Command(DebuggerCommand::Ssh { step_idx: i }) && i < n ==> v.current
                == i && v.activity == Activity::Shell && task == (DebuggerTask::OpenShell {
                step_idx: i,
            })
            &&& e == Entry::Command(DebuggerCommand::Ssh { step_idx: i }) && i >= n ==> v == d
                && task == DebuggerTask::ReadLine
            &&& e == Entry::Command(DebuggerCommand::Continue { step_idx: i }) ==> v.current == i
            &&& e == Entry::Command(DebuggerCommand::Continue { step_idx: i }) && i < n
                ==> v.activity == Activity::Continue && task == (DebuggerTask::Execute {
                step_idx: i,
            })
            &&& e == Entry::Command(DebuggerCommand::Continue { step_idx: i }) && i >= n
                ==> v.activity == Activity::Idle && task == DebuggerTask::ReadLine
            &&& v.success == d.success
        }),
{
}

} // verus!
