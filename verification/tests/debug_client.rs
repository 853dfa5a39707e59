use muzanci_cli::config::GitRemote;
use muzanci_cli::config::JobConfig;
use muzanci_cli::config::StepConfig;
use muzanci_cli::debug::channel::ChannelError;
use muzanci_cli::debug::checksum::digest_text;
use muzanci_cli::debug::checksum::Checksum;
use muzanci_cli::debug::debug_client::read_answer;
use muzanci_cli::debug::debug_client::ClientAction;
use muzanci_cli::debug::debug_client::ClientEvent;
use muzanci_cli::debug::debug_client::ClientTask;
use muzanci_cli::debug::debug_client::DebugClient;
use muzanci_cli::debug::debug_client::DebugClientReply;
use muzanci_cli::debug::debug_client::DebugClientRequest;
use muzanci_cli::debug::debug_client::DebugTarget;
use muzanci_cli::debug::debug_client::Phase;
use muzanci_cli::debug::debug_client::CHUNK_SIZE;

type Target = DebugTarget<&'static str, u8>;

fn target() -> Target {
    DebugTarget {
        debug_session_id: 77,
        remote: GitRemote {
            url: "git@host:repo".to_string(),
            branch: "main".to_string(),
        },
        job: JobConfig {
            name: "build".to_string(),
            image: "rust:1",
            steps: vec![
                StepConfig {
                    name: "one".to_string(),
                    command: "make one".to_string(),
                    source: 1,
                },
                StepConfig {
                    name: "two".to_string(),
                    command: "make two".to_string(),
                    source: 2,
                },
            ],
        },
    }
}

fn step<'a>(
    client: &mut DebugClient,
    target: &'a Target,
    event: ClientEvent,
) -> ClientAction<'a, &'static str, u8> {
    assert!(client.can_take(&event));
    client.advance(target, event)
}

fn ok(make: fn(Result<(), String>) -> DebugClientReply) -> ClientEvent {
    ClientEvent::Received(Some(make(Ok(()))))
}

fn upload_started<'a>(target: &'a Target) -> DebugClient {
    let mut c = DebugClient::new(2);
    match step(&mut c, target, ClientEvent::Started).task {
        ClientTask::Send(DebugClientRequest::ConnectDebugClient { debug_session_id }) => {
            assert_eq!(debug_session_id, 77)
        }
        _ => panic!("no connection"),
    }
    let r = step(&mut c, target, ok(|result| DebugClientReply::ConnectDebugClient { result }));
    match r.task {
        ClientTask::Send(DebugClientRequest::CreateSandbox { image }) => {
            assert_eq!(*image, "rust:1")
        }
        _ => panic!("no sandbox"),
    }
    let r = step(&mut c, target, ok(|result| DebugClientReply::CreateSandbox { result }));
    match r.task {
        ClientTask::Send(DebugClientRequest::CheckoutBranch { url, branch }) => {
            assert_eq!((url.as_str(), branch.as_str()), ("git@host:repo", "main"))
        }
        _ => panic!("no checkout"),
    }
    let r = step(&mut c, target, ok(|result| DebugClientReply::CheckoutBranch { result }));
    assert!(matches!(r.task, ClientTask::CreateDiff));
    let r = step(&mut c, target, ClientEvent::DiffCreated);
    assert!(matches!(r.task, ClientTask::Send(DebugClientRequest::StartDiffUpload)));
    let r = step(&mut c, target, ok(|result| DebugClientReply::StartDiffUpload { result }));
    assert!(matches!(r.task, ClientTask::ReadChunk));
    c
}

fn upload(c: &mut DebugClient, target: &Target, chunks: &[&str]) -> String {
    for chunk in chunks {
        let bytes = chunk.as_bytes().to_vec();
        let r = step(c, target, ClientEvent::Chunk(bytes.clone()));
        match r.task {
            ClientTask::Send(DebugClientRequest::UploadDiffChunk { chunk }) => {
                assert_eq!(chunk, bytes)
            }
            _ => panic!("no upload"),
        }
        let r = step(c, target, ok(|result| DebugClientReply::UploadDiffChunk { result }));
        assert!(matches!(r.task, ClientTask::ReadChunk));
    }
    match step(c, target, ClientEvent::Chunk(Vec::new())).task {
        ClientTask::Send(DebugClientRequest::CompleteDiffUpload { checksum }) => checksum,
        _ => panic!("no end of the upload"),
    }
}

fn in_control(target: &Target) -> DebugClient {
    let mut c = upload_started(target);
    upload(&mut c, target, &["x"]);
    let r = step(&mut c, target, ok(|result| DebugClientReply::CompleteDiffUpload { result }));
    assert!(matches!(r.task, ClientTask::Send(DebugClientRequest::ApplyDiff)));
    assert_eq!(r.text, "");
    let r = step(&mut c, target, ok(|result| DebugClientReply::ApplyDiff { result }));
    assert!(matches!(r.task, ClientTask::ReadLine));
    assert!(r.text.starts_with("Job: build\nSteps:\n> ? (1) one\n"));
    assert_eq!(c.phase, Phase::Control);
    c
}

#[test]
fn checksum_is_the_digest_of_all_chunks() {
    let target = target();
    let mut c = upload_started(&target);
    assert_eq!(
        upload(&mut c, &target, &["a", "bc"]),
        "ba7816bf8f01cfea414140de5dae2223b00361a396177a9cb410ff61f20015ad"
    );
    let mut c = upload_started(&target);
    assert_eq!(
        upload(&mut c, &target, &["abc"]),
        "ba7816bf8f01cfea414140de5dae2223b00361a396177a9cb410ff61f20015ad"
    );
    let mut c = upload_started(&target);
    assert_eq!(
        upload(&mut c, &target, &[]),
        "e3b0c44298fc1c149afbf4c8996fb92427ae41e4649b934ca495991b7852b855"
    );
}

#[test]
fn checksum_starts_over_when_it_is_finished() {
    let mut c = Checksum::new();
    c.update(b"ab");
    c.update(b"c");
    assert!(c.can_take(CHUNK_SIZE));
    assert_eq!(
        c.finish(),
        "ba7816bf8f01cfea414140de5dae2223b00361a396177a9cb410ff61f20015ad"
    );
    assert_eq!(
        c.finish(),
        "e3b0c44298fc1c149afbf4c8996fb92427ae41e4649b934ca495991b7852b855"
    );
}

#[test]
fn digests_are_written_in_lower_case_digits() {
    assert_eq!(digest_text(&[0x00, 0x0f, 0xa5, 0xff, 0x19]), "000fa5ff19");
    assert_eq!(digest_text(&[]), "");
}

#[test]
fn step_is_run_in_the_shell_that_was_started_for_it() {
    let target = target();
    let mut c = in_control(&target);
    let r = step(&mut c, &target, ClientEvent::Line("c 1\n".to_string()));
    assert_eq!(r.text, "Executing continue on 0\n");
    match r.task {
        ClientTask::Send(DebugClientRequest::StartShell { step }) => assert_eq!(step.source, 1),
        _ => panic!("no shell"),
    }
    let r = step(&mut c, &target, ok(|result| DebugClientReply::StartShell { result }));
    match r.task {
        ClientTask::RunCommand { command } => assert_eq!(command, "make one"),
        _ => panic!("no command"),
    }
    let r = step(&mut c, &target, ClientEvent::Exited(0));
    assert_eq!(r.text, "");
    match r.task {
        ClientTask::Send(DebugClientRequest::StartShell { step }) => assert_eq!(step.source, 2),
        _ => panic!("no second shell"),
    }
    step(&mut c, &target, ok(|result| DebugClientReply::StartShell { result }));
    let r = step(&mut c, &target, ClientEvent::Exited(2));
    assert!(matches!(r.task, ClientTask::ReadLine));
    assert!(r.text.contains("  ✔ (1) one"));
    assert!(r.text.contains("> ✘ (2) two"));
}

#[test]
fn shell_is_opened_and_left() {
    let target = target();
    let mut c = in_control(&target);
    let r = step(&mut c, &target, ClientEvent::Line("s 2".to_string()));
    match r.task {
        ClientTask::Send(DebugClientRequest::StartShell { step }) => assert_eq!(step.source, 2),
        _ => panic!("no shell"),
    }
    let r = step(&mut c, &target, ok(|result| DebugClientReply::StartShell { result }));
    assert!(matches!(r.task, ClientTask::RunShell));
    let r = step(&mut c, &target, ClientEvent::ShellClosed);
    assert!(matches!(r.task, ClientTask::ReadLine));
    let r = step(&mut c, &target, ClientEvent::Line("huh\n".to_string()));
    assert!(r.text.starts_with("Unknown command: huh\nJob: build\n"));
    let r = step(&mut c, &target, ClientEvent::Line("q".to_string()));
    assert!(matches!(r.task, ClientTask::Finish));
    assert_eq!(c.phase, Phase::Done);
    assert!(!c.can_take(&ClientEvent::Line("n".to_string())));
}

#[test]
fn bad_answers_end_the_session() {
    let target = target();
    for (reply, text) in [
        (None, "Channel closed"),
        (Some(DebugClientReply::Other), "Unexpected message type"),
        (Some(DebugClientReply::ApplyDiff { result: Ok(()) }), "Unexpected message type"),
        (
            Some(DebugClientReply::ConnectDebugClient { result: Err("no such session".to_string()) }),
            "no such session",
        ),
    ] {
        let mut c = DebugClient::new(2);
        step(&mut c, &target, ClientEvent::Started);
        match step(&mut c, &target, ClientEvent::Received(reply)).task {
            ClientTask::Report(error) => assert_eq!(error.message(), text),
            _ => panic!("no failure"),
        }
        assert_eq!(c.phase, Phase::Failed);
        assert!(!c.can_take(&ClientEvent::Received(None)));
        assert!(!c.can_take(&ClientEvent::Started));
    }
}

#[test]
fn every_request_has_its_own_answer() {
    let replies: Vec<(Phase, fn(Result<(), String>) -> DebugClientReply)> = vec![
        (Phase::ConnectDebugClient, |result| DebugClientReply::ConnectDebugClient { result }),
        (Phase::CreateSandbox, |result| DebugClientReply::CreateSandbox { result }),
        (Phase::CheckoutBranch, |result| DebugClientReply::CheckoutBranch { result }),
        (Phase::StartDiffUpload, |result| DebugClientReply::StartDiffUpload { result }),
        (Phase::UploadDiffChunk, |result| DebugClientReply::UploadDiffChunk { result }),
        (Phase::CompleteDiffUpload, |result| DebugClientReply::CompleteDiffUpload { result }),
        (Phase::ApplyDiff, |result| DebugClientReply::ApplyDiff { result }),
        (Phase::StartCommand, |result| DebugClientReply::StartShell { result }),
    ];
    for (i, (phase, _)) in replies.iter().enumerate() {
        for (j, (_, make)) in replies.iter().enumerate() {
            assert_eq!(read_answer(*phase, Some(make(Ok(())))).is_ok(), i == j);
        }
    }
    assert!(read_answer(Phase::StartShell, Some(DebugClientReply::StartShell { result: Ok(()) })).is_ok());
    assert!(matches!(read_answer(Phase::StartShell, None), Err(ChannelError::Closed)));
}

#[test]
fn client_waits_for_one_kind_of_event() {
    let target = target();
    let c = in_control(&target);
    assert!(c.can_take(&ClientEvent::Line("n".to_string())));
    assert!(!c.can_take(&ClientEvent::Line("m 0".to_string())));
    assert!(!c.can_take(&ClientEvent::Received(None)));
    assert!(!c.can_take(&ClientEvent::Exited(0)));
    assert!(!c.can_take(&ClientEvent::ShellClosed));
    assert!(!c.can_take(&ClientEvent::DiffCreated));
    assert!(!c.can_take(&ClientEvent::Chunk(vec![1])));
    let c = upload_started(&target);
    assert!(c.can_take(&ClientEvent::Chunk(vec![1])));
}

#[test]
fn shutdown_ends_the_session() {
    let target = target();
    for mut c in [DebugClient::new(2), upload_started(&target), in_control(&target)] {
        let r = step(&mut c, &target, ClientEvent::Cancelled);
        assert!(matches!(r.task, ClientTask::Finish));
        assert_eq!(r.text, "");
        assert_eq!(c.phase, Phase::Done);
        assert!(!c.can_take(&ClientEvent::Cancelled));
    }
}

#[test]
fn chunks_have_a_largest_size() {
    let target = target();
    let mut c = upload_started(&target);
    assert!(!c.can_take(&ClientEvent::Chunk(vec![0; CHUNK_SIZE + 1])));
    let r = step(&mut c, &target, ClientEvent::Chunk(vec![0; CHUNK_SIZE]));
    match r.task {
        ClientTask::Send(DebugClientRequest::UploadDiffChunk { chunk }) => {
            assert_eq!(chunk.len(), 1_048_576)
        }
        _ => panic!("no upload"),
    }
}

#[test]
fn upload_needs_a_checksum() {
    let target = target();
    for chunk in [vec![1], Vec::new()] {
        let mut c = upload_started(&target);
        c.checksum = None;
        match step(&mut c, &target, ClientEvent::Chunk(chunk)).task {
            ClientTask::Report(error) => assert_eq!(error.message(), "No diff hasher"),
            _ => panic!("no report"),
        }
        assert_eq!(c.phase, Phase::Failed);
    }
}

#[test]
fn upload_starts_a_new_checksum() {
    let target = target();
    let mut c = DebugClient::new(2);
    let mut seen = Checksum::new();
    seen.update(b"before");
    c.checksum = Some(seen);
    c.phase = Phase::CreateDiff;
    step(&mut c, &target, ClientEvent::DiffCreated);
    step(&mut c, &target, ok(|result| DebugClientReply::StartDiffUpload { result }));
    assert_eq!(
        upload(&mut c, &target, &["abc"]),
        "ba7816bf8f01cfea414140de5dae2223b00361a396177a9cb410ff61f20015ad"
    );
}

#[test]
fn checksum_goes_on_from_what_it_has_seen() {
    let target = target();
    let mut c = upload_started(&target);
    let mut seen = Checksum::new();
    seen.update(b"a");
    c.checksum = Some(seen);
    assert_eq!(
        upload(&mut c, &target, &["bc"]),
        "ba7816bf8f01cfea414140de5dae2223b00361a396177a9cb410ff61f20015ad"
    );
}

#[test]
fn broken_session_reports_why() {
    let target = target();
    assert!(!DebugClient::new(2).can_take(&ClientEvent::Broken("x".to_string())));
    for mut c in [upload_started(&target), in_control(&target)] {
        match step(&mut c, &target, ClientEvent::Broken("disk full".to_string())).task {
            ClientTask::Report(error) => assert_eq!(error.message(), "disk full"),
            _ => panic!("no report"),
        }
        assert_eq!(c.phase, Phase::Failed);
        assert!(!c.can_take(&ClientEvent::Broken("again".to_string())));
    }
}

#[test]
fn marks_tell_the_last_run() {
    let target = target();
    let mut c = in_control(&target);
    for code in [1, 0] {
        step(&mut c, &target, ClientEvent::Line("n\n".to_string()));
        step(&mut c, &target, ok(|result| DebugClientReply::StartShell { result }));
        step(&mut c, &target, ClientEvent::Exited(code));
    }
    assert_eq!(c.debugger.step_success, vec![Some(true), None]);
    assert_eq!(c.debugger.current_step, 1);
}
