use muzanci_cli::config::JobConfig;
use muzanci_cli::config::StepConfig;
use muzanci_cli::debug::debugger::is_step_zero;
use muzanci_cli::debug::debugger::read_entry;
use muzanci_cli::debug::debugger::Activity;
use muzanci_cli::debug::debugger::Debugger;
use muzanci_cli::debug::debugger::DebuggerCommand;
use muzanci_cli::debug::debugger::DebuggerTask;
use muzanci_cli::debug::debugger::Entry;

fn job(names: &[&str]) -> JobConfig<(), ()> {
    JobConfig {
        name: "build".to_string(),
        image: (),
        steps: names
            .iter()
            .map(|n| StepConfig {
                name: n.to_string(),
                command: format!("run {}", n),
                source: (),
            })
            .collect(),
    }
}

#[test]
fn commands_are_read_by_either_name() {
    let c = |e| Entry::Command(e);
    for (line, entry) in [
        ("s\n", c(DebuggerCommand::Ssh { step_idx: 4 })),
        ("shell 2", c(DebuggerCommand::Ssh { step_idx: 1 })),
        ("m 1", c(DebuggerCommand::Move { step_idx: 0 })),
        ("move", c(DebuggerCommand::Move { step_idx: 4 })),
        ("c 3 ignored", c(DebuggerCommand::Continue { step_idx: 2 })),
        ("  continue  \n", c(DebuggerCommand::Continue { step_idx: 4 })),
        ("n", c(DebuggerCommand::Next)),
        ("next 7", c(DebuggerCommand::Next)),
        ("q", c(DebuggerCommand::Quit)),
        ("quit\r\n", c(DebuggerCommand::Quit)),
        ("m two", c(DebuggerCommand::Move { step_idx: 4 })),
        ("m +2", c(DebuggerCommand::Move { step_idx: 1 })),
        ("M 1", Entry::Unknown),
        ("sh", Entry::Unknown),
        ("", Entry::Blank),
        (" \t\n", Entry::Blank),
    ] {
        assert!(!is_step_zero(line));
        assert_eq!(read_entry(line, 4), entry, "{:?}", line);
    }
}

#[test]
fn short_and_long_names_mean_the_same() {
    for (a, b) in [
        ("s 3", " shell\t3 x\n"),
        ("m", "move what"),
        ("c 1", "continue +1"),
        ("n", "next 5"),
        ("q", "quit now"),
        ("what", " is this"),
        (" ", ""),
    ] {
        assert_eq!(read_entry(a, 5), read_entry(b, 5), "{} {}", a, b);
    }
}

#[test]
fn step_zero_is_told_apart() {
    assert!(is_step_zero("s 0"));
    assert!(is_step_zero("move +0\n"));
    assert!(is_step_zero("c 000 x"));
    assert!(!is_step_zero("n 0"));
    assert!(!is_step_zero("x 0"));
    assert!(!is_step_zero("s 1"));
    assert!(!is_step_zero("s"));
    assert!(!is_step_zero(""));
}

#[test]
fn next_runs_the_current_step_and_moves_on() {
    let mut d = Debugger::new(2);
    assert!(d.can_take("n"));
    let (text, task) = d.take_line("n");
    assert_eq!(text, "Executing next.\n");
    assert_eq!(task, DebuggerTask::Execute { step_idx: 0 });
    assert_eq!(d.activity, Activity::Next);
    assert_eq!(d.step_finished(0), DebuggerTask::ReadLine);
    assert_eq!(d.current_step, 1);
    assert_eq!(d.step_success, vec![Some(true), None]);
    d.take_line("next");
    assert_eq!(d.step_finished(3), DebuggerTask::ReadLine);
    assert_eq!(d.current_step, 1);
    assert_eq!(d.step_success, vec![Some(true), Some(false)]);
    d.take_line("n");
    assert_eq!(d.step_finished(0), DebuggerTask::ReadLine);
    assert_eq!(d.current_step, 1);
    assert_eq!(d.step_success, vec![Some(true), Some(true)]);
}

#[test]
fn continue_runs_to_the_end() {
    let mut d = Debugger::new(3);
    let (text, task) = d.take_line("c 2");
    assert_eq!(text, "Executing continue on 1\n");
    assert_eq!(task, DebuggerTask::Execute { step_idx: 1 });
    assert_eq!(d.step_finished(0), DebuggerTask::Execute { step_idx: 2 });
    assert_eq!(d.step_finished(0), DebuggerTask::ReadLine);
    assert_eq!(d.current_step, 2);
    assert_eq!(d.step_success, vec![None, Some(true), Some(true)]);
    assert_eq!(d.activity, Activity::Idle);
}

#[test]
fn continue_stops_at_a_failure() {
    let mut d = Debugger::new(3);
    assert_eq!(d.take_line("c").1, DebuggerTask::Execute { step_idx: 0 });
    assert_eq!(d.step_finished(0), DebuggerTask::Execute { step_idx: 1 });
    assert_eq!(d.step_finished(1), DebuggerTask::ReadLine);
    assert_eq!(d.current_step, 1);
    assert_eq!(d.step_success, vec![Some(true), Some(false), None]);
}

#[test]
fn continue_beyond_the_job_only_moves_the_cursor() {
    let mut d = Debugger::new(2);
    let (text, task) = d.take_line("c 9");
    assert_eq!(text, "Executing continue on 8\n");
    assert_eq!(task, DebuggerTask::ReadLine);
    assert_eq!(d.current_step, 8);
    assert!(!d.can_take("n"));
    assert!(d.can_take("m 1"));
    assert_eq!(d.take_line("s").1, DebuggerTask::ReadLine);
    assert_eq!(d.take_line("m").0, "Executing move on 8\nStep 8 is out of bounds.\n");
    d.take_line("m 1");
    assert!(d.can_take("n"));
}

#[test]
fn moving_and_shells_need_a_step_of_the_job() {
    let mut d = Debugger::new(2);
    assert_eq!(
        d.take_line("m 2"),
        ("Executing move on 1\n".to_string(), DebuggerTask::ReadLine)
    );
    assert_eq!(d.current_step, 1);
    assert_eq!(
        d.take_line("m 3"),
        (
            "Executing move on 2\nStep 2 is out of bounds.\n".to_string(),
            DebuggerTask::ReadLine
        )
    );
    assert_eq!(d.current_step, 1);
    assert_eq!(
        d.take_line("s 3"),
        ("Executing ssh on 2\n".to_string(), DebuggerTask::ReadLine)
    );
    assert_eq!(d.current_step, 1);
    assert_eq!(
        d.take_line("s 1"),
        ("Executing ssh on 0\n".to_string(), DebuggerTask::OpenShell { step_idx: 0 })
    );
    assert_eq!(d.activity, Activity::Shell);
    assert_eq!(d.shell_closed(), DebuggerTask::ReadLine);
    assert_eq!(d.current_step, 0);
    assert_eq!(d.step_success, vec![None, None]);
}

#[test]
fn other_lines_change_nothing() {
    let mut d = Debugger::new(1);
    assert_eq!(d.take_line("  \n"), (String::new(), DebuggerTask::ReadLine));
    assert_eq!(
        d.take_line("  what is this \n"),
        ("Unknown command: what is this\n".to_string(), DebuggerTask::ReadLine)
    );
    assert_eq!(d.take_line("q"), (String::new(), DebuggerTask::Quit));
    assert_eq!(d.current_step, 0);
    assert_eq!(d.step_success, vec![None]);
}

#[test]
fn next_needs_a_step() {
    let d = Debugger::new(0);
    assert!(!d.can_take("n"));
    assert!(!d.can_take("s 0"));
    assert!(d.can_take("c"));
    assert!(d.can_take("q"));
}

#[test]
fn screen_shows_marks_and_cursor() {
    let job = job(&["compile", "test", "lint"]);
    let mut d = Debugger::new(3);
    d.take_line("n");
    d.step_finished(0);
    d.take_line("n");
    d.step_finished(1);
    assert_eq!(
        d.show(&job),
        "Job: build\nSteps:\n  ✔ (1) compile\n\t\"run compile\"\n\n> ✘ (2) test\n\t\"run test\"\n\n  ? (3) lint\n\t\"run lint\"\n\nYou can open a (s)hell, (m)ove, (n)ext, (c)ontinue, or (q)uit.\n> "
    );
}

#[test]
fn shown_numbers_find_their_steps() {
    for i in 0..12usize {
        let mut d = Debugger::new(12);
        d.take_line(&format!("move {}", i + 1));
        assert_eq!(d.current_step, i);
    }
}

#[test]
fn white_space_around_a_line_makes_no_difference() {
    for line in ["s 2", "m 9", "c 1 x", "n", "q", "what is this", ""] {
        let mut a = Debugger::new(3);
        let mut b = Debugger::new(3);
        let padded = format!(" \u{3000}{}\t\r\n", line);
        assert_eq!(a.take_line(line), b.take_line(&padded), "{}", line);
        assert_eq!(a.current_step, b.current_step);
        assert_eq!(a.activity, b.activity);
    }
}
