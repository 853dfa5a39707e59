use muzanci_cli::cli::evaluation_failed;
use muzanci_cli::cli::run_check;
use muzanci_cli::cli::run_debug;
use muzanci_cli::cli::run_show;
use muzanci_cli::cli::CheckArgs;
use muzanci_cli::cli::CliCommand;
use muzanci_cli::cli::CliJob;
use muzanci_cli::cli::CliSubcommand;
use muzanci_cli::cli::CliTask;
use muzanci_cli::cli::DebugArgs;
use muzanci_cli::cli::ShowArgs;
use muzanci_cli::cli::ShowFormat;
use muzanci_cli::config::JobConfig;
use muzanci_cli::config::StepConfig;
use muzanci_cli::env::parse_env;
use muzanci_cli::env::parse_key_val;
use muzanci_cli::env::GitKey;
use muzanci_cli::git::patch_line;
use muzanci_cli::prompt::accounts_fetched;
use muzanci_cli::prompt::accounts_headers;
use muzanci_cli::prompt::accounts_url;
use muzanci_cli::prompt::prompt_account_selection;
use muzanci_cli::prompt::prompt_login;
use muzanci_cli::prompt::select_account;
use muzanci_cli::prompt::Account;
use muzanci_cli::prompt::AccountSelection;
use muzanci_cli::prompt::AccountsResponse;
use muzanci_cli::prompt::Intent;
use muzanci_cli::prompt::Selection;
use muzanci_cli::prompt::SelectionError;
use muzanci_cli::prompt::SelectionEvent;
use muzanci_cli::prompt::SelectionTask;
use muzanci_cli::stdin::decode_line;
use muzanci_cli::stdin::pump;
use muzanci_cli::stdin::LineRead;
use muzanci_cli::stdin::PumpEvent;
use muzanci_cli::stdin::PumpTask;
use muzanci_cli::stdin::StdinStream;
use muzanci_cli::stdin::READ_SIZE;
use std::path::PathBuf;

fn pair(key: &str, value: &str) -> (String, String) {
    (key.to_string(), value.to_string())
}

#[test]
fn key_and_value_are_trimmed() {
    assert_eq!(parse_key_val("A=b"), Ok(pair("A", "b")));
    assert_eq!(parse_key_val("  A = b c  "), Ok(pair("A", "b c")));
    assert_eq!(parse_key_val("A="), Ok(pair("A", "")));
    assert_eq!(parse_key_val("A=b=c"), Ok(pair("A", "b=c")));
    assert_eq!(parse_key_val("ü=ß"), Ok(pair("ü", "ß")));
}

#[test]
fn key_value_errors_quote_the_text() {
    assert_eq!(
        parse_key_val("plain"),
        Err("invalid KEY=VALUE: no `=` found in [plain]".to_string())
    );
    assert_eq!(parse_key_val(""), Err("invalid KEY=VALUE: no `=` found in []".to_string()));
    assert_eq!(
        parse_key_val(" =x"),
        Err("invalid KEY=VALUE: key is empty in [ =x]".to_string())
    );
}

#[test]
fn variables_are_taken_once() {
    let env = parse_env(vec![pair("A", "1"), pair("B", "2")]).ok().unwrap();
    assert_eq!(env.entries(), &vec![pair("A", "1"), pair("B", "2")]);
    assert!(env.contains_key("B"));
    assert!(!env.contains_key("b"));
    assert_eq!(env.missing(), Some(GitKey::Branch));
    let again = vec![pair("A", "1"), pair("B", "2"), pair("B", "3"), pair("A", "4")];
    assert_eq!(parse_env(again).err(), Some("Duplicate env key [B]".to_string()));
}

#[test]
fn given_git_variables_are_not_looked_up() {
    let mut env = parse_env(vec![pair("GIT_COMMIT", "abc")]).ok().unwrap();
    assert_eq!(env.missing(), Some(GitKey::Branch));
    env.supply(GitKey::Branch, "main".to_string());
    assert_eq!(env.missing(), None);
    assert_eq!(env.entries(), &vec![pair("GIT_COMMIT", "abc"), pair("GIT_BRANCH", "main")]);
}

#[test]
fn show_looks_up_and_then_shows() {
    let command = CliCommand {
        subcommand: CliSubcommand::Show(ShowArgs {
            input: PathBuf::from("muzan.py"),
            format: ShowFormat::JSON,
            env: vec![pair("X", "y")],
        }),
    };
    let mut run = command.run().ok().unwrap();
    assert_eq!(run.next(), CliTask::LookUp(GitKey::Branch));
    run.supply(GitKey::Branch, "main".to_string());
    assert_eq!(run.next(), CliTask::LookUp(GitKey::Commit));
    run.supply(GitKey::Commit, "c0ffee".to_string());
    assert_eq!(run.next(), CliTask::Show { format: ShowFormat::JSON });
    assert_eq!(run.input, PathBuf::from("muzan.py"));
    assert_eq!(
        run.env.entries(),
        &vec![pair("X", "y"), pair("GIT_BRANCH", "main"), pair("GIT_COMMIT", "c0ffee")]
    );
    assert_eq!(run_show("graph"), "graph\n");
}

#[test]
fn check_and_debug_are_told_apart() {
    let git = vec![pair("GIT_BRANCH", "b"), pair("GIT_COMMIT", "c")];
    let check = CliCommand {
        subcommand: CliSubcommand::Check(CheckArgs {
            input: PathBuf::from("a.py"),
            env: git.clone(),
        }),
    };
    assert_eq!(check.run().ok().unwrap().next(), CliTask::Check);
    let debug = CliCommand {
        subcommand: CliSubcommand::Debug(DebugArgs {
            input: PathBuf::from("a.py"),
            job: "build".to_string(),
            env: git,
        }),
    };
    let run = debug.run().ok().unwrap();
    assert_eq!(run.next(), CliTask::Debug);
    assert!(matches!(run.job, CliJob::Debug { ref job } if job == "build"));
}

#[test]
fn command_with_a_repeated_variable_is_refused() {
    let debug = CliCommand {
        subcommand: CliSubcommand::Debug(DebugArgs {
            input: PathBuf::from("a.py"),
            job: "build".to_string(),
            env: vec![pair("K", "1"), pair("K", "1")],
        }),
    };
    assert_eq!(debug.run().err(), Some("Duplicate env key [K]".to_string()));
}

#[test]
fn formats_have_names() {
    assert_eq!(ShowFormat::ASCII.to_string(), "ascii");
    assert_eq!(ShowFormat::JSON.to_string(), "json");
    assert_eq!(ShowFormat::DOTGRAPH.to_string(), "dotgraph");
}

#[test]
fn check_reports_what_was_found() {
    assert_eq!(
        run_check(2, 13),
        "No syntax errors or dependency cycles detected.\nFound 2 pipelines total.\nFound 13 jobs total.\n"
    );
    assert_eq!(evaluation_failed("a.py", "oops"), "failed to evaluate a.py:\noops");
}

fn job(name: &str, image: u8) -> JobConfig<u8, ()> {
    JobConfig {
        name: name.to_string(),
        image,
        steps: vec![
            StepConfig { name: "fetch".to_string(), command: "f".to_string(), source: () },
            StepConfig { name: "make".to_string(), command: "m".to_string(), source: () },
        ],
    }
}

#[test]
fn job_is_found_by_its_name() {
    let jobs = vec![job("a", 1), job("b", 2), job("b", 3)];
    let (found, printed) = run_debug(jobs, "b").ok().unwrap();
    assert_eq!(found.image, 2);
    assert_eq!(printed, "Found job: b\nJob steps:\n  - fetch\n  - make\n");
    assert_eq!(run_debug(vec![job("a", 1)], "z").err(), Some("job not found: z".to_string()));
}

const FIRST: u128 = 0x67e5504410b1426f9247bb680e5fe0c8;

fn accounts(n: u128) -> Vec<Account> {
    (0..n)
        .map(|i| Account { account_id: FIRST + i, name: format!("acc{}", i) })
        .collect()
}

#[test]
fn login_says_what_it_is_for() {
    assert_eq!(
        prompt_login(Intent::Login),
        "To login, enter your personal access token.\n\nYou can generate a personal access token at https://papaya-repeal-curvature.ngrok-free.dev/personal_access_tokens\n\nCopy your personal access token, paste it here, and hit ENTER:\nToken: "
    );
    assert!(prompt_login(Intent::Debug)
        .starts_with("Before starting your debug session, enter your personal access token.\n\nYou"));
    assert_eq!(accounts_url(), "https://papaya-repeal-curvature.ngrok-free.dev/cli_accounts");
    assert_eq!(
        accounts_headers("pat"),
        (("x-muzanci-personal-access-token", "pat"), ("accept", "application/json"))
    );
}

#[test]
fn one_account_is_selected_unasked() {
    match prompt_account_selection(&accounts(0)) {
        Err(error) => assert_eq!(error.message(), "no accounts found"),
        _ => panic!("selected from nothing"),
    }
    match prompt_account_selection(&accounts(1)) {
        Ok(Selection::Only(id)) => assert_eq!(id, FIRST),
        _ => panic!("not selected"),
    }
}

#[test]
fn several_accounts_make_a_menu() {
    match prompt_account_selection(&accounts(2)) {
        Ok(Selection::Ask(question)) => assert_eq!(
            question,
            "Your MuzanCI profile is associated with multiple MuzanCI accounts.\nWhich MuzanCI account would you like to use?:\n1: acc0 (67e55044-10b1-426f-9247-bb680e5fe0c8)\n2: acc1 (67e55044-10b1-426f-9247-bb680e5fe0c9)\nEnter your choice: "
        ),
        _ => panic!("no question"),
    }
}

#[test]
fn shown_numbers_select_their_accounts() {
    let list = accounts(3);
    for i in 0..3u128 {
        let line = format!(" {} \n", i + 1);
        assert_eq!(select_account(&list, &line).ok(), Some(FIRST + i));
    }
}

#[test]
fn bad_choices_are_told_apart() {
    let list = accounts(2);
    let text = |line: &str| select_account(&list, line).unwrap_err().message();
    assert_eq!(text("0"), "invalid choice: 0");
    assert_eq!(text("3\n"), "invalid choice: 3");
    assert_eq!(text("\n"), "cannot parse integer from empty string");
    assert_eq!(text("one"), "invalid digit found in string");
    assert_eq!(text("99999999999999999999"), "number too large to fit in target type");
    assert_eq!(
        SelectionError::FetchFailed("denied".to_string()).message(),
        "failed to fetch accounts: denied"
    );
    assert!(accounts_fetched(200) && accounts_fetched(299));
    assert!(!accounts_fetched(199) && !accounts_fetched(300) && !accounts_fetched(404));
}

fn told(n: u128) -> (AccountSelection, SelectionTask) {
    let mut s = AccountSelection::new();
    let answered = SelectionEvent::Answered { status: 200 };
    assert!(s.can_take(&answered));
    assert!(matches!(s.advance(answered), SelectionTask::ReadAccounts));
    let event = SelectionEvent::Accounts(AccountsResponse { accounts: accounts(n) });
    assert!(s.can_take(&event));
    let task = s.advance(event);
    (s, task)
}

#[test]
fn selected_accounts_were_told() {
    match told(0).1 {
        SelectionTask::Fail(error) => assert_eq!(error.message(), "no accounts found"),
        _ => panic!("no failure"),
    }
    match told(1).1 {
        SelectionTask::Selected(id) => assert_eq!(id, FIRST),
        _ => panic!("not selected"),
    }
    let (mut s, task) = told(2);
    assert!(matches!(task, SelectionTask::Ask(_)));
    match s.advance(SelectionEvent::Line("2\n".to_string())) {
        SelectionTask::Selected(id) => assert_eq!(id, FIRST + 1),
        _ => panic!("not selected"),
    }
    assert!(!s.can_take(&SelectionEvent::Line("1\n".to_string())));
    let (mut s, _) = told(2);
    match s.advance(SelectionEvent::Line("3\n".to_string())) {
        SelectionTask::Fail(error) => assert_eq!(error.message(), "invalid choice: 3"),
        _ => panic!("no failure"),
    }
}

#[test]
fn refused_token_selects_no_account() {
    let mut s = AccountSelection::new();
    assert!(matches!(
        s.advance(SelectionEvent::Answered { status: 401 }),
        SelectionTask::ReadBody
    ));
    assert!(!s.can_take(&SelectionEvent::Accounts(AccountsResponse { accounts: accounts(1) })));
    match s.advance(SelectionEvent::Body("bad token".to_string())) {
        SelectionTask::Fail(error) => {
            assert_eq!(error.message(), "failed to fetch accounts: bad token")
        }
        _ => panic!("no failure"),
    }
}

fn line(r: LineRead) -> String {
    match r {
        LineRead::Line(text) => text,
        LineRead::Invalid(reason) => panic!("{}", reason),
        LineRead::More => panic!("no line"),
    }
}

#[test]
fn lines_and_raw_bytes_share_the_input() {
    let mut s = StdinStream::new();
    assert!(matches!(s.read_line(), LineRead::More));
    assert_eq!(s.recv_raw(), None);
    assert_eq!(s.push(Some(b"one\ntw".to_vec())), Ok(()));
    assert_eq!(line(s.read_line()), "one\n");
    assert!(matches!(s.read_line(), LineRead::More));
    assert_eq!(s.push(Some(b"o\n\nrest".to_vec())), Ok(()));
    assert_eq!(line(s.read_line()), "two\n");
    assert_eq!(line(s.read_line()), "\n");
    assert_eq!(s.recv_raw(), Some(b"rest".to_vec()));
    assert_eq!(s.recv_raw(), None);
    assert_eq!(s.push(None), Err("EOF"));
}

#[test]
fn line_that_is_not_text_is_dropped() {
    let mut s = StdinStream::new();
    assert_eq!(s.push(Some(b"a\xffb\nnext\n".to_vec())), Ok(()));
    match s.read_line() {
        LineRead::Invalid(reason) => {
            assert_eq!(reason, "invalid utf-8 sequence of 1 bytes from index 1")
        }
        _ => panic!("not refused"),
    }
    assert_eq!(line(s.read_line()), "next\n");
    assert_eq!(line(decode_line("✔\n".as_bytes().to_vec())), "✔\n");
}

#[test]
fn input_is_passed_on_in_chunks() {
    let buf = [7u8, 8, 9, 0];
    match pump(&buf, PumpEvent::Read { n: 2 }) {
        PumpTask::PassOn(chunk) => assert_eq!(chunk, vec![7, 8]),
        _ => panic!("no chunk"),
    }
    match pump(&buf, PumpEvent::Read { n: 0 }) {
        PumpTask::PassOn(chunk) => assert!(chunk.is_empty()),
        _ => panic!("no chunk"),
    }
    match pump(&[1; READ_SIZE], PumpEvent::Read { n: READ_SIZE }) {
        PumpTask::PassOn(chunk) => assert_eq!(chunk, vec![1; 1024]),
        _ => panic!("no chunk"),
    }
    assert!(matches!(pump(&buf, PumpEvent::PassedOn(true)), PumpTask::Read));
    assert!(matches!(pump(&buf, PumpEvent::PassedOn(false)), PumpTask::Stop));
    assert!(matches!(pump(&buf, PumpEvent::ReadFailed), PumpTask::Stop));
    assert!(matches!(pump(&buf, PumpEvent::Cancelled), PumpTask::Stop));
}

#[test]
fn patch_lines_keep_their_origin() {
    assert_eq!(patch_line('+', "é\n".as_bytes().to_vec()), Some("+é\n".to_string()));
    assert_eq!(patch_line(' ', Vec::new()), Some(" ".to_string()));
    assert_eq!(patch_line('-', vec![0xc3, 0x28]), None);
}
