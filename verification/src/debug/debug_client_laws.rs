//! What holds of a debug session as a whole, whatever the server answers, the
//! steps do and a person types.

use crate::debug::channel::ChannelError;
use crate::debug::checksum;
use crate::debug::debug_client;
use crate::debug::debug_client::ClientError;
use crate::debug::debug_client::ClientEvent;
use crate::debug::debug_client::ClientTask;
use crate::debug::debug_client::ClientView;
use crate::debug::debug_client::DebugClient;
use crate::debug::debug_client::DebugClientReply;
use crate::debug::debug_client::DebugClientRequest;
use crate::debug::debug_client::DebugTarget;
use crate::debug::debug_client::Phase;
use crate::debug::debug_client::RequestView;
use crate::debug::debug_client::TaskView;
use crate::debug::debugger;
use crate::debug::debugger::DebuggerCommand;
use crate::debug::debugger::DebuggerTask;
use crate::debug::debugger::Entry;
use crate::debug::debugger_laws;
use crate::text;
use vstd::prelude::*;

verus! {

/// The state in which a session starts.
pub open spec fn started<I, S>(target: DebugTarget<I, S>) -> ClientView {
    ClientView::fresh(target.job.steps@.len())
}

/// The client's state after these events, from the state `start` on.
pub open spec fn state_after<I, S>(
    target: DebugTarget<I, S>,
    start: ClientView,
    events: Seq<ClientEvent>,
) -> ClientView
    decreases events.len(),
{
    if events.len() == 0 {
        start
    } else {
        state_after(target, start, events.drop_last()).step(target, events.last()).0
    }
}

/// Whether the client could act on each of these events when it came.
pub open spec fn session<I, S>(
    target: DebugTarget<I, S>,
    start: ClientView,
    events: Seq<ClientEvent>,
) -> bool
    decreases events.len(),
{
    events.len() == 0 || session(target, start, events.drop_last()) && state_after(
        target,
        start,
        events.drop_last(),
    ).takes(events.last())
}

/// What the last event made the client ask for.
pub open spec fn last_task<I, S>(
    target: DebugTarget<I, S>,
    start: ClientView,
    events: Seq<ClientEvent>,
) -> TaskView<I, S> {
    state_after(target, start, events.drop_last()).step(target, events.last()).1
}

/// The requests that these events made the client send, in order.
pub open spec fn requests<I, S>(
    target: DebugTarget<I, S>,
    start: ClientView,
    events: Seq<ClientEvent>,
) -> Seq<RequestView<I, S>>
    decreases events.len(),
{
    if events.len() == 0 {
        Seq::empty()
    } else {
        let before = requests(target, start, events.drop_last());
        match last_task(target, start, events) {
            TaskView::Send(request) => before.push(request),
            _ => before,
        }
    }
}

/// The bytes that these requests upload.
pub open spec fn uploaded<I, S>(requests: Seq<RequestView<I, S>>) -> Seq<u8>
    decreases requests.len(),
{
    if requests.len() == 0 {
        Seq::empty()
    } else {
        let before = uploaded(requests.drop_last());
        match requests.last() {
            RequestView::UploadDiffChunk { chunk } => before + chunk,
            _ => before,
        }
    }
}

/// The bytes of the local changes that were read in these events.
pub open spec fn read_from_diff(events: Seq<ClientEvent>) -> Seq<u8>
    decreases events.len(),
{
    if events.len() == 0 {
        Seq::empty()
    } else {
        let before = read_from_diff(events.drop_last());
        match events.last() {
            ClientEvent::Chunk(chunk) => before + chunk@,
            _ => before,
        }
    }
}

/// Whether a request may come right after another.
pub open spec fn may_follow<I, S>(first: RequestView<I, S>, second: RequestView<I, S>) -> bool {
    match (first, second) {
        (RequestView::ConnectDebugClient { .. }, RequestView::CreateSandbox { .. }) => true,
        (RequestView::CreateSandbox { .. }, RequestView::CheckoutBranch { .. }) => true,
        (RequestView::CheckoutBranch { .. }, RequestView::StartDiffUpload) => true,
        (RequestView::StartDiffUpload, RequestView::UploadDiffChunk { .. }) => true,
        (RequestView::StartDiffUpload, RequestView::CompleteDiffUpload { .. }) => true,
        (RequestView::UploadDiffChunk { .. }, RequestView::UploadDiffChunk { .. }) => true,
        (RequestView::UploadDiffChunk { .. }, RequestView::CompleteDiffUpload { .. }) => true,
        (RequestView::CompleteDiffUpload { .. }, RequestView::ApplyDiff) => true,
        (RequestView::ApplyDiff, RequestView::StartShell { .. }) => true,
        (RequestView::StartShell { .. }, RequestView::StartShell { .. }) => true,
        _ => false,
    }
}

/// Whether a request says what the session is about, and a chunk is neither empty nor
/// too large.
pub open spec fn fits<I, S>(target: DebugTarget<I, S>, request: RequestView<I, S>) -> bool {
    match request {
        RequestView::ConnectDebugClient { debug_session_id } => debug_session_id
            == target.debug_session_id,
        RequestView::CreateSandbox { image } => image == target.job.image,
        RequestView::CheckoutBranch { url, branch } => url == target.remote.url@ && branch
            == target.remote.branch@,
        RequestView::UploadDiffChunk { chunk } => 0 < chunk.len() <= debug_client::CHUNK_SIZE,
        RequestView::StartShell { step } => target.job.steps@.contains(step),
        _ => true,
    }
}

/// What the requests sent so far have to do with the state.
spec fn consistent<I, S>(
    target: DebugTarget<I, S>,
    v: ClientView,
    sent: Seq<RequestView<I, S>>,
) -> bool {
    let steps = target.job.steps@;
    let nothing = Seq::<u8>::empty();
    &&& v.valid(steps.len())
    &&& v.phase == Phase::New ==> sent.len() == 0
    &&& sent.len() == 0 ==> v.phase == Phase::New || v.phase == Phase::Done
    &&& match v.phase {
        Phase::New => uploaded(sent) == nothing && v.hashed is None,
        Phase::ConnectDebugClient => sent.last() is ConnectDebugClient && uploaded(sent) == nothing
            && v.hashed is None,
        Phase::CreateSandbox => sent.last() is CreateSandbox && uploaded(sent) == nothing
            && v.hashed is None,
        Phase::CheckoutBranch | Phase::CreateDiff => sent.last() is CheckoutBranch && uploaded(sent)
            == nothing && v.hashed is None,
        Phase::StartDiffUpload => sent.last() is StartDiffUpload && v.hashed == Some(
            uploaded(sent),
        ),
        Phase::ReadDiff => (sent.last() is StartDiffUpload || sent.last() is UploadDiffChunk)
            && v.hashed == Some(uploaded(sent)),
        Phase::UploadDiffChunk => sent.last() is UploadDiffChunk && v.hashed == Some(
            uploaded(sent),
        ),
        Phase::CompleteDiffUpload => sent.last() is CompleteDiffUpload && v.hashed == Some(nothing),
        Phase::ApplyDiff => sent.last() is ApplyDiff && v.hashed == Some(nothing),
        Phase::Control => (sent.last() is ApplyDiff || sent.last() is StartShell) && v.hashed
            == Some(nothing),
        Phase::StartCommand | Phase::RunCommand | Phase::StartShell | Phase::RunShell => sent.last()
            == (RequestView::<I, S>::StartShell { step: steps[v.debugger.current as int] })
            && v.hashed == Some(nothing),
        _ => true,
    }
}

proof fn session_is_consistent<I, S>(target: DebugTarget<I, S>, events: Seq<ClientEvent>)
    requires
        session(target, started(target), events),
    ensures
        consistent(
            target,
            state_after(target, started(target), events),
            requests(target, started(target), events),
        ),
    decreases events.len(),
{
    let sent = requests(target, started(target), events);
    if events.len() > 0 {
        let front = events.drop_last();
        let before = requests(target, started(target), front);
        session_is_consistent(target, front);
        if sent.len() > before.len() {
            assert(sent.drop_last() == before);
        }
    }
}

/// Every state that a session comes to is one that the client can be in: there is a
/// mark for each step of the job, and the debugger waits for what the client waits for.
pub proof fn session_stays_valid<I, S>(target: DebugTarget<I, S>, events: Seq<ClientEvent>)
    requires
        session(target, started(target), events),
    ensures
        state_after(target, started(target), events).valid(target.job.steps@.len()),
{
    session_is_consistent(target, events);
}

/// While the local changes are uploaded, from wherever the upload stands, the checksum
/// has seen what it had seen before and then all the bytes that were sent since, in
/// order. Those are all the bytes that were read. This holds whether the upload goes on,
/// fails or is given up, and every chunk that is sent holds at least one byte and at
/// most `CHUNK_SIZE`.
pub proof fn upload_is_hashed<I, S>(
    target: DebugTarget<I, S>,
    start: ClientView,
    seen: Seq<u8>,
    events: Seq<ClientEvent>,
)
    requires
        start.phase == Phase::ReadDiff,
        start.hashed == Some(seen),
        session(target, start, events),
        forall|k: int|
            0 <= k < requests(target, start, events).len() ==> !(#[trigger] requests(
                target,
                start,
                events,
            )[k] is CompleteDiffUpload),
    ensures
        ({
            let sent = requests(target, start, events);
            &&& state_after(target, start, events).hashed == Some(seen + uploaded(sent))
            &&& uploaded(sent) == read_from_diff(events)
            &&& forall|k: int|
                0 <= k < sent.len() ==> (#[trigger] sent[k] matches RequestView::UploadDiffChunk {
                    chunk,
                } && 0 < chunk.len() <= debug_client::CHUNK_SIZE)
            &&& match state_after(target, start, events).phase {
                Phase::ReadDiff | Phase::UploadDiffChunk | Phase::Done | Phase::Failed => true,
                _ => false,
            }
        }),
    decreases events.len(),
{
    let sent = requests(target, start, events);
    if events.len() == 0 {
        assert(seen + uploaded(sent) == seen);
    } else {
        let front = events.drop_last();
        let before = requests(target, start, front);
        assert forall|k: int| 0 <= k < before.len() implies !(#[trigger] before[k]
            is CompleteDiffUpload) by {
            assert(sent[k] == before[k]);
        }
        upload_is_hashed(target, start, seen, front);
        if sent.len() > before.len() {
            assert(sent.drop_last() == before);
            assert(sent[before.len() as int] == sent.last());
        }
        if let ClientEvent::Chunk(chunk) = events.last() {
            assert(seen + uploaded(before) + chunk@ == seen + (uploaded(before) + chunk@));
        }
    }
}

/// Without a checksum nothing is uploaded, and no upload is ended: the session reports
/// that there is none.
pub proof fn no_upload_without_checksum<I, S>(
    target: DebugTarget<I, S>,
    v: ClientView,
    chunk: Vec<u8>,
)
    requires
        v.takes(ClientEvent::Chunk(chunk)),
        v.hashed is None,
    ensures
        v.step(target, ClientEvent::Chunk(chunk)).1 == TaskView::<I, S>::Report(
            ClientError::NoDiffHasher,
        ),
        v.step(target, ClientEvent::Chunk(chunk)).0.over(),
{
}

/// What the bytes read since the local changes were written have to do with the state.
spec fn upload_state<I, S>(
    v: ClientView,
    sent: Seq<RequestView<I, S>>,
    events: Seq<ClientEvent>,
) -> bool {
    let read = read_from_diff(events);
    &&& v.phase == Phase::CreateDiff ==> events.len() == 0
    &&& match v.phase {
        Phase::New | Phase::ConnectDebugClient | Phase::CreateSandbox | Phase::CheckoutBranch => {
            false
        },
        Phase::StartDiffUpload | Phase::ReadDiff | Phase::UploadDiffChunk => v.hashed == Some(read)
            && uploaded(sent) == read,
        _ => true,
    }
}

proof fn upload_state_holds<I, S>(
    target: DebugTarget<I, S>,
    start: ClientView,
    events: Seq<ClientEvent>,
)
    requires
        start.phase == Phase::CreateDiff,
        session(target, start, events),
    ensures
        upload_state(state_after(target, start, events), requests(target, start, events), events),
    decreases events.len(),
{
    if events.len() > 0 {
        let front = events.drop_last();
        upload_state_holds(target, start, front);
        let sent = requests(target, start, events);
        let before = requests(target, start, front);
        if sent.len() > before.len() {
            assert(sent.drop_last() == before);
        }
        if front.len() == 0 {
            assert(before == Seq::<RequestView<I, S>>::empty());
            assert(read_from_diff(front) == Seq::<u8>::empty());
            assert(uploaded(before) == Seq::<u8>::empty());
        }
    }
}

/// The checksum that ends an upload is the SHA-256 digest, in hexadecimal digits, of all
/// the bytes that were read from the local changes since they were written, whatever the
/// checksum had seen before, and all of them were uploaded. A new checksum is begun with
/// it, whatever the answer is, and the session goes on if and only if the answer is the
/// one to this request and says success.
pub proof fn upload_ends_with_checksum<I, S>(
    target: DebugTarget<I, S>,
    start: ClientView,
    events: Seq<ClientEvent>,
    reply: Option<DebugClientReply>,
)
    requires
        start.phase == Phase::CreateDiff,
        session(target, start, events),
        events.len() > 0,
        last_task(target, start, events) matches TaskView::Send(
            RequestView::CompleteDiffUpload { .. },
        ),
    ensures
        ({
            let read = read_from_diff(events);
            let now = state_after(target, start, events);
            let (after, task) = now.step(target, ClientEvent::Received(reply));
            &&& last_task(target, start, events) == TaskView::<I, S>::Send(
                RequestView::CompleteDiffUpload {
                    checksum: checksum::hex_text(checksum::sha256(read)),
                },
            )
            &&& uploaded(requests(target, start, events)) == read
            &&& now.hashed == Some(Seq::<u8>::empty())
            &&& now.takes(ClientEvent::Received(reply))
            &&& after.hashed == Some(Seq::<u8>::empty())
            &&& task == TaskView::<I, S>::Send(RequestView::ApplyDiff) <==> reply == Some(
                DebugClientReply::CompleteDiffUpload { result: Ok(()) },
            )
            &&& task is Send || (task is Report && after.over())
        }),
{
    let front = events.drop_last();
    upload_state_holds(target, start, front);
    let sent = requests(target, start, events);
    assert(sent.drop_last() == requests(target, start, front));
    if let ClientEvent::Chunk(chunk) = events.last() {
        assert(read_from_diff(front) + chunk@ == read_from_diff(front));
    }
}

/// The checksum that ends an upload is the SHA-256 digest, in hexadecimal digits, of
/// all the bytes that the session has uploaded, in the order in which they were sent,
/// and it is never missing.
pub proof fn checksum_covers_upload<I, S>(target: DebugTarget<I, S>, events: Seq<ClientEvent>)
    requires
        session(target, started(target), events),
        events.len() > 0,
    ensures
        last_task(target, started(target), events) matches TaskView::Send(
            RequestView::CompleteDiffUpload { checksum },
        ) ==> checksum == checksum::hex_text(
            checksum::sha256(uploaded(requests(target, started(target), events))),
        ),
        last_task(target, started(target), events) != TaskView::<I, S>::Report(
            ClientError::NoDiffHasher,
        ),
{
    let front = events.drop_last();
    session_is_consistent(target, front);
    let sent = requests(target, started(target), events);
    if last_task(target, started(target), events) is Send {
        assert(sent.drop_last() == requests(target, started(target), front));
    }
}

/// A request that is sent may follow the one before it, and says what the session is about.
proof fn request_is_in_order<I, S>(target: DebugTarget<I, S>, events: Seq<ClientEvent>)
    requires
        session(target, started(target), events),
        events.len() > 0,
        last_task(target, started(target), events) is Send,
    ensures
        ({
            let before = requests(target, started(target), events.drop_last());
            let request = last_task(target, started(target), events)->Send_0;
            &&& requests(target, started(target), events) == before.push(request)
            &&& fits(target, request)
            &&& before.len() == 0 ==> request is ConnectDebugClient
            &&& before.len() > 0 ==> may_follow(before.last(), request)
        }),
{
    session_is_consistent(target, events.drop_last());
    session_is_consistent(target, events);
    let v = state_after(target, started(target), events);
    let request = last_task(target, started(target), events)->Send_0;
    assert(requests(target, started(target), events).last() == request);
    if request is StartShell {
        assert(target.job.steps@.contains(target.job.steps@[v.debugger.current as int]));
    }
}

/// A session sends its requests in one order: it connects, has the sandbox made, has
/// the branch checked out, uploads the local changes and has them applied, each once,
/// and then asks for shells alone. No step of this is left out. Each request says what
/// the session is about: its identifier, the job's image, the remote's URL and branch,
/// and steps of the job; and no chunk is empty or larger than `CHUNK_SIZE`.
pub proof fn requests_come_in_order<I, S>(target: DebugTarget<I, S>, events: Seq<ClientEvent>)
    requires
        session(target, started(target), events),
    ensures
        ({
            let sent = requests(target, started(target), events);
            &&& sent.len() > 0 ==> sent[0] == (RequestView::<I, S>::ConnectDebugClient {
                debug_session_id: target.debug_session_id,
            })
            &&& sent.len() > 1 ==> sent[1] == (RequestView::<I, S>::CreateSandbox {
                image: target.job.image,
            })
            &&& sent.len() > 2 ==> sent[2] == (RequestView::<I, S>::CheckoutBranch {
                url: target.remote.url@,
                branch: target.remote.branch@,
            })
            &&& sent.len() > 3 ==> sent[3] == RequestView::<I, S>::StartDiffUpload
            &&& forall|k: int| 0 < k < sent.len() ==> may_follow(sent[k - 1], #[trigger] sent[k])
            &&& forall|k: int| 0 <= k < sent.len() ==> fits(target, #[trigger] sent[k])
        }),
    decreases events.len(),
{
    let sent = requests(target, started(target), events);
    if events.len() > 0 {
        let before = requests(target, started(target), events.drop_last());
        requests_come_in_order(target, events.drop_last());
        if last_task(target, started(target), events) is Send {
            request_is_in_order(target, events);
            assert forall|k: int| 0 < k < sent.len() implies may_follow(
                sent[k - 1],
                #[trigger] sent[k],
            ) by {
                if k < before.len() {
                    assert(sent[k] == before[k]);
                    assert(sent[k - 1] == before[k - 1]);
                } else {
                    assert(sent[k - 1] == before.last());
                }
            }
            assert forall|k: int| 0 <= k < sent.len() implies fits(target, #[trigger] sent[k]) by {
                if k < before.len() {
                    assert(sent[k] == before[k]);
                }
            }
            assert(sent[before.len() as int] == sent.last());
        }
    }
}

/// The command that is run is that of the step for which the last shell was asked.
pub proof fn command_runs_in_its_shell<I, S>(target: DebugTarget<I, S>, events: Seq<ClientEvent>)
    requires
        session(target, started(target), events),
        events.len() > 0,
    ensures
        last_task(target, started(target), events) matches TaskView::RunCommand { command } ==> (
        requests(target, started(target), events).last() matches RequestView::StartShell { step }
            && step.command@ == command),
{
    let front = events.drop_last();
    session_is_consistent(target, front);
}

/// Where the server closes the channel, refuses, or sends anything but the answer,
/// the session reports that, and no event comes after it: nothing more is sent.
pub proof fn bad_answer_ends_session<I, S>(
    target: DebugTarget<I, S>,
    start: ClientView,
    events: Seq<ClientEvent>,
    k: int,
)
    requires
        session(target, start, events),
        0 <= k < events.len(),
        events[k] matches ClientEvent::Received(reply) && debug_client::answer(
            state_after(target, start, events.take(k)).phase,
            reply,
        ) is Err,
    ensures
        k == events.len() - 1,
        last_task(target, start, events) == TaskView::<I, S>::Report(
            ClientError::Channel(
                debug_client::answer(
                    state_after(target, start, events.take(k)).phase,
                    events[k]->Received_0,
                )->Err_0,
            ),
        ),
        state_after(target, start, events).over(),
        requests(target, start, events) == requests(target, start, events.take(k)),
    decreases events.len(),
{
    let front = events.drop_last();
    if k == events.len() - 1 {
        assert(events.take(k) == front);
    } else {
        assert(front.take(k) == events.take(k));
        assert(front[k] == events[k]);
        bad_answer_ends_session(target, start, front, k);
    }
}

/// A session ends in one of two ways, and neither is a failure: it is left, or something
/// is reported. It is over then and only then.
pub proof fn session_reports_or_finishes<I, S>(
    target: DebugTarget<I, S>,
    start: ClientView,
    events: Seq<ClientEvent>,
)
    requires
        session(target, start, events),
        events.len() > 0,
    ensures
        state_after(target, start, events).over() <==> (last_task(target, start, events) is Finish
            || last_task(target, start, events) is Report),
{
}

/// Whatever a session waits for, it ends without an error when the tool is shut
/// down, and nothing is sent or run from then on.
pub proof fn shutdown_ends_session<I, S>(
    target: DebugTarget<I, S>,
    v: ClientView,
    next: ClientEvent,
)
    requires
        !v.over(),
    ensures
        v.takes(ClientEvent::Cancelled),
        v.step(target, ClientEvent::Cancelled).1 == TaskView::<I, S>::Finish,
        !v.step(target, ClientEvent::Cancelled).0.takes(next),
{
}

/// A session that is over stays over: no event is acted on any more.
pub proof fn end_is_final(v: ClientView, event: ClientEvent)
    requires
        v.over(),
    ensures
        !v.takes(event),
{
}

/// Whether two events ask for the same: they are equal, or lines that ask for the same.
pub open spec fn events_alike(a: ClientEvent, b: ClientEvent) -> bool {
    ||| a == b
    ||| a matches ClientEvent::Line(x) && b matches ClientEvent::Line(y)
        && debugger::lines_alike(x@, y@)
}

/// Two sessions in which the same is asked for, in whichever words, are alike: each is
/// acted on where the other is, they come to the same states, send the same requests and
/// want the same done.
pub proof fn sessions_alike<I, S>(
    target: DebugTarget<I, S>,
    start: ClientView,
    a: Seq<ClientEvent>,
    b: Seq<ClientEvent>,
)
    requires
        a.len() == b.len(),
        forall|k: int| 0 <= k < a.len() ==> events_alike(#[trigger] a[k], b[k]),
    ensures
        session(target, start, a) == session(target, start, b),
        state_after(target, start, a) == state_after(target, start, b),
        requests(target, start, a) == requests(target, start, b),
        a.len() > 0 ==> last_task(target, start, a) == last_task(target, start, b),
    decreases a.len(),
{
    if a.len() > 0 {
        let (x, y) = (a.drop_last(), b.drop_last());
        assert forall|k: int| 0 <= k < x.len() implies events_alike(#[trigger] x[k], y[k]) by {
            assert(x[k] == a[k]);
        }
        sessions_alike(target, start, x, y);
        let v = state_after(target, start, x);
        assert(events_alike(a[a.len() - 1], b[a.len() - 1]));
        if let ClientEvent::Line(p) = a.last() {
            if let ClientEvent::Line(q) = b.last() {
                if a.last() != b.last() {
                    debugger::lines_that_mean_the_same(v.debugger, p@, q@);
                }
            }
        }
    }
}

/// Whether the local changes were written to a file in these events.
pub open spec fn diff_created(events: Seq<ClientEvent>) -> bool {
    exists|k: int| 0 <= k < events.len() && #[trigger] events[k] is DiffCreated
}

/// A chunk of the local changes is asked for only after they were written to a file.
pub proof fn chunks_are_read_from_a_file<I, S>(
    target: DebugTarget<I, S>,
    events: Seq<ClientEvent>,
)
    requires
        session(target, started(target), events),
        events.len() > 0,
    ensures
        last_task(target, started(target), events) is ReadChunk ==> diff_created(events),
        match state_after(target, started(target), events).phase {
            Phase::StartDiffUpload | Phase::ReadDiff | Phase::UploadDiffChunk => diff_created(
                events,
            ),
            _ => true,
        },
    decreases events.len(),
{
    let front = events.drop_last();
    if front.len() > 0 {
        chunks_are_read_from_a_file(target, front);
    }
    if diff_created(front) {
        let k = choose|k: int| 0 <= k < front.len() && #[trigger] front[k] is DiffCreated;
        assert(events[k] is DiffCreated);
    }
    if events.last() is DiffCreated {
        assert(events[events.len() - 1] is DiffCreated);
    }
}

/// Whether no `continue` in these events was told to go on from a step that the job does
/// not have.
pub open spec fn continues_inside<I, S>(
    target: DebugTarget<I, S>,
    events: Seq<ClientEvent>,
) -> bool
    decreases events.len(),
{
    events.len() == 0 || continues_inside(target, events.drop_last()) && (
    events.last() matches ClientEvent::Line(line) ==> (debugger::entry_of(
        line@,
        state_after(target, started(target), events.drop_last()).debugger.current,
    ) matches Entry::Command(DebuggerCommand::Continue { step_idx }) ==> step_idx
        < target.job.steps@.len()))
}

/// Throughout a session the current step is a step of the job, as long as the job has
/// any and `continue` is never told to go on from a step that it does not have.
pub proof fn cursor_stays_in_the_job<I, S>(target: DebugTarget<I, S>, events: Seq<ClientEvent>)
    requires
        session(target, started(target), events),
        continues_inside(target, events),
        target.job.steps@.len() > 0,
    ensures
        state_after(target, started(target), events).debugger.in_bounds(),
    decreases events.len(),
{
    if events.len() > 0 {
        let front = events.drop_last();
        cursor_stays_in_the_job(target, front);
        session_is_consistent(target, front);
    }
}

/// Whether the last run of step `j` in these events succeeded, if it ran.
pub open spec fn last_run<I, S>(
    target: DebugTarget<I, S>,
    events: Seq<ClientEvent>,
    j: int,
) -> Option<bool>
    decreases events.len(),
{
    if events.len() == 0 {
        None
    } else {
        let before = state_after(target, started(target), events.drop_last());
        match events.last() {
            ClientEvent::Exited(exit_code) if before.debugger.current == j => Some(exit_code == 0),
            _ => last_run(target, events.drop_last(), j),
        }
    }
}

/// The mark of a step says whether its last run in the session succeeded, and nothing
/// else changes it.
pub proof fn marks_tell_the_last_run<I, S>(
    target: DebugTarget<I, S>,
    events: Seq<ClientEvent>,
    j: int,
)
    requires
        session(target, started(target), events),
        0 <= j < target.job.steps@.len(),
    ensures
        state_after(target, started(target), events).debugger.success[j] == last_run(
            target,
            events,
            j,
        ),
    decreases events.len(),
{
    if events.len() > 0 {
        marks_tell_the_last_run(target, events.drop_last(), j);
        session_is_consistent(target, events.drop_last());
    }
}

/// Whether a message is the answer that a client in this phase waits for.
pub open spec fn is_its_answer(phase: Phase, reply: DebugClientReply) -> bool {
    ||| phase == Phase::ConnectDebugClient && reply is ConnectDebugClient
    ||| phase == Phase::CreateSandbox && reply is CreateSandbox
    ||| phase == Phase::CheckoutBranch && reply is CheckoutBranch
    ||| phase == Phase::StartDiffUpload && reply is StartDiffUpload
    ||| phase == Phase::UploadDiffChunk && reply is UploadDiffChunk
    ||| phase == Phase::CompleteDiffUpload && reply is CompleteDiffUpload
    ||| phase == Phase::ApplyDiff && reply is ApplyDiff
    ||| (phase == Phase::StartCommand || phase == Phase::StartShell) && reply is StartShell
}

/// The result that an answer holds.
pub open spec fn result_in(reply: DebugClientReply) -> Result<(), String> {
    match reply {
        DebugClientReply::ConnectDebugClient { result } => result,
        DebugClientReply::CreateSandbox { result } => result,
        DebugClientReply::CheckoutBranch { result } => result,
        DebugClientReply::StartDiffUpload { result } => result,
        DebugClientReply::UploadDiffChunk { result } => result,
        DebugClientReply::CompleteDiffUpload { result } => result,
        DebugClientReply::ApplyDiff { result } => result,
        DebugClientReply::StartShell { result } => result,
        DebugClientReply::Other => arbitrary(),
    }
}

/// A request is granted if and only if the answer to that very request comes and says
/// success. A closed channel, any other message, and a refusal are told apart, and a refusal
/// keeps its reason.
pub proof fn only_its_own_answer_grants_a_request(phase: Phase, reply: DebugClientReply)
    ensures
        debug_client::answer(phase, None) == Err::<(), ChannelError>(ChannelError::Closed),
        !is_its_answer(phase, reply) ==> debug_client::answer(phase, Some(reply)) == Err::<
            (),
            ChannelError,
        >(ChannelError::Unexpected),
        is_its_answer(phase, reply) ==> match result_in(reply) {
            Ok(_) => debug_client::answer(phase, Some(reply)) is Ok,
            Err(reason) => debug_client::answer(phase, Some(reply)) == Err::<(), ChannelError>(
                ChannelError::Rejected(reason),
            ),
        },
{
}

/// What the client waits for is what it acts on, whatever that says: the start, an answer
/// where a request was sent, the file, a chunk of it, a line that the debugger can act on,
/// the end of a step, the end of a shell.
pub proof fn client_acts_on_what_it_waits_for(
    v: ClientView,
    reply: Option<DebugClientReply>,
    chunk: Vec<u8>,
    line: String,
    exit_code: u32,
    reason: String,
)
    ensures
        v.takes(ClientEvent::Started) <==> v.phase == Phase::New,
        v.takes(ClientEvent::Received(reply)) <==> (v.phase == Phase::ConnectDebugClient || v.phase
            == Phase::CreateSandbox || v.phase == Phase::CheckoutBranch || v.phase
            == Phase::StartDiffUpload || v.phase == Phase::UploadDiffChunk || v.phase
            == Phase::CompleteDiffUpload || v.phase == Phase::ApplyDiff || v.phase
            == Phase::StartCommand || v.phase == Phase::StartShell),
        v.takes(ClientEvent::DiffCreated) <==> v.phase == Phase::CreateDiff,
        v.phase == Phase::ReadDiff && chunk@.len() <= 1048576 && (v.hashed matches Some(bytes)
            ==> bytes.len() < 0x1000_0000_0000_0000) ==> v.takes(ClientEvent::Chunk(chunk)),
        v.takes(ClientEvent::Chunk(chunk)) ==> v.phase == Phase::ReadDiff && chunk@.len()
            <= 1048576,
        v.takes(ClientEvent::Line(line)) <==> v.phase == Phase::Control && v.debugger.takes(line@),
        v.takes(ClientEvent::Exited(exit_code)) <==> v.phase == Phase::RunCommand,
        v.takes(ClientEvent::ShellClosed) <==> v.phase == Phase::RunShell,
        v.takes(ClientEvent::Broken(reason)) <==> v.phase != Phase::New && v.phase != Phase::Done
            && v.phase != Phase::Failed,
        v.takes(ClientEvent::Cancelled) <==> v.phase != Phase::Done && v.phase != Phase::Failed,
{
}

/// What a session does when a request is granted: after connecting it has the sandbox made
/// of the job's image, then the remote's branch checked out, then the local changes written
/// to a file; the upload goes on with the next chunk, and when it is complete the changes
/// are applied; then a line is read. A shell that was asked for a step runs the command of
/// that step, and one that was asked for a person is given to them. Nothing else changes.
pub proof fn what_follows_when_granted<I, S>(
    target: DebugTarget<I, S>,
    v: ClientView,
    reply: DebugClientReply,
)
    requires
        is_its_answer(v.phase, reply),
        result_in(reply) is Ok,
    ensures
        ({
            let (after, task) = v.step(target, ClientEvent::Received(Some(reply)));
            &&& after.debugger == v.debugger && after.hashed == v.hashed
            &&& v.phase == Phase::ConnectDebugClient ==> after.phase == Phase::CreateSandbox
                && task == TaskView::<I, S>::Send(
                RequestView::CreateSandbox { image: target.job.image },
            )
            &&& v.phase == Phase::CreateSandbox ==> after.phase == Phase::CheckoutBranch && task
                == TaskView::<I, S>::Send(
                RequestView::CheckoutBranch {
                    url: target.remote.url@,
                    branch: target.remote.branch@,
                },
            )
            &&& v.phase == Phase::CheckoutBranch ==> after.phase == Phase::CreateDiff && task
                is CreateDiff
            &&& v.phase == Phase::StartDiffUpload || v.phase == Phase::UploadDiffChunk
                ==> after.phase == Phase::ReadDiff && task is ReadChunk
            &&& v.phase == Phase::CompleteDiffUpload ==> after.phase == Phase::ApplyDiff && task
                == TaskView::<I, S>::Send(RequestView::ApplyDiff)
            &&& v.phase == Phase::ApplyDiff ==> after.phase == Phase::Control && task is ReadLine
            &&& v.phase == Phase::StartCommand ==> after.phase == Phase::RunCommand && task
                == (TaskView::<I, S>::RunCommand {
                command: target.job.steps@[v.debugger.current as int].command@,
            })
            &&& v.phase == Phase::StartShell ==> after.phase == Phase::RunShell && task
                is RunShell
        }),
{
}

/// How a session begins, and what it does when the local changes are in a file: it names
/// the session, and it starts an upload with a new checksum. Something that could not be
/// done is reported for its reason.
pub proof fn session_begins_and_uploads<I, S>(
    target: DebugTarget<I, S>,
    v: ClientView,
    reason: String,
)
    ensures
        started(target).phase == Phase::New,
        started(target).hashed is None,
        started(target).debugger.current == 0,
        v.step(target, ClientEvent::Started).1 == TaskView::<I, S>::Send(
            RequestView::ConnectDebugClient { debug_session_id: target.debug_session_id },
        ),
        v.step(target, ClientEvent::Started).0.phase == Phase::ConnectDebugClient,
        v.step(target, ClientEvent::Started).0.debugger == v.debugger,
        v.step(target, ClientEvent::DiffCreated).1 == TaskView::<I, S>::Send(
            RequestView::StartDiffUpload,
        ),
        v.step(target, ClientEvent::DiffCreated).0.phase == Phase::StartDiffUpload,
        v.step(target, ClientEvent::DiffCreated).0.hashed == Some(Seq::<u8>::empty()),
        v.step(target, ClientEvent::DiffCreated).0.debugger == v.debugger,
        v.step(target, ClientEvent::Broken(reason)).1 == TaskView::<I, S>::Report(
            ClientError::Broken(reason),
        ),
        v.step(target, ClientEvent::Broken(reason)).0.phase == Phase::Failed,
{
}

/// The debugger is told of every line, of the exit code of every step and of the end of
/// every shell. Where it wants a step run or a shell opened, the server is asked for a shell
/// for that very step; where it wants a line, one is read; where it is left, the session
/// ends.
pub proof fn debugger_is_obeyed<I, S>(
    target: DebugTarget<I, S>,
    v: ClientView,
    line: String,
    exit_code: u32,
    i: usize,
)
    requires
        v.debugger.valid(target.job.steps@.len()),
    ensures
        ({
            let (d, t) = v.debugger.after_line(line@);
            let (after, task) = v.step(target, ClientEvent::Line(line));
            &&& after.debugger == d && after.hashed == v.hashed
            &&& t == DebuggerTask::ReadLine ==> after.phase == Phase::Control && task is ReadLine
            &&& t == DebuggerTask::Quit ==> after.phase == Phase::Done && task is Finish
            &&& t == (DebuggerTask::Execute { step_idx: i }) ==> after.phase == Phase::StartCommand
                && task == TaskView::<I, S>::Send(
                RequestView::StartShell { step: target.job.steps@[i as int] },
            )
            &&& t == (DebuggerTask::OpenShell { step_idx: i }) ==> after.phase == Phase::StartShell
                && task == TaskView::<I, S>::Send(
                RequestView::StartShell { step: target.job.steps@[i as int] },
            )
        }),
        ({
            let (d, t) = v.debugger.after_step(exit_code);
            let (after, task) = v.step(target, ClientEvent::Exited(exit_code));
            &&& after.debugger == d && after.hashed == v.hashed
            &&& t == DebuggerTask::ReadLine ==> after.phase == Phase::Control && task is ReadLine
            &&& t == (DebuggerTask::Execute { step_idx: i }) ==> after.phase == Phase::StartCommand
                && task == TaskView::<I, S>::Send(
                RequestView::StartShell { step: target.job.steps@[i as int] },
            )
        }),
        ({
            let (after, task) = v.step(target, ClientEvent::ShellClosed);
            &&& after.debugger == v.debugger.after_shell() && after.hashed == v.hashed
            &&& after.phase == Phase::Control && task is ReadLine
        }),
{
}

/// `next`, from the prompt and back: the server is asked for a shell for the current step,
/// the command of that step is run in it, and its exit code marks the step. The step behind
/// it is current then, if the exit code is zero and there is one.
pub proof fn next_from_prompt_to_prompt<I, S>(
    target: DebugTarget<I, S>,
    v: ClientView,
    line: String,
    reply: DebugClientReply,
    exit_code: u32,
)
    requires
        v.phase == Phase::Control,
        v.valid(target.job.steps@.len()),
        target.job.steps@.len() <= usize::MAX,
        v.debugger.in_bounds(),
        text::words(line@).len() > 0,
        text::words(line@)[0] == "n"@ || text::words(line@)[0] == "next"@,
        reply == (DebugClientReply::StartShell { result: Ok(()) }),
    ensures
        ({
            let n = target.job.steps@.len();
            let i = v.debugger.current as int;
            let (v1, t1) = v.step(target, ClientEvent::Line(line));
            let (v2, t2) = v1.step(target, ClientEvent::Received(Some(reply)));
            let (v3, t3) = v2.step(target, ClientEvent::Exited(exit_code));
            &&& v.takes(ClientEvent::Line(line))
            &&& t1 == TaskView::<I, S>::Send(
                RequestView::StartShell { step: target.job.steps@[i] },
            )
            &&& v1.takes(ClientEvent::Received(Some(reply)))
            &&& t2 == (TaskView::<I, S>::RunCommand { command: target.job.steps@[i].command@ })
            &&& v2.takes(ClientEvent::Exited(exit_code))
            &&& t3 is ReadLine
            &&& v3.phase == Phase::Control
            &&& v3.debugger.current == (if exit_code == 0 && i + 1 < n {
                i + 1
            } else {
                i
            })
            &&& v3.debugger.success == v.debugger.success.update(i, Some(exit_code == 0))
        }),
{
    debugger_laws::next_runs_one_step_and_moves_on(v.debugger, line@, exit_code);
    let running = v.debugger.after_line(line@).0;
    assert(running.after_step(exit_code).0.success =~= v.debugger.success.update(
        v.debugger.current as int,
        Some(exit_code == 0),
    ));
}

/// What a session prints: what there is to say about a line, and, whenever a line is to be
/// read next, the screen, as the debugger's state is then; nothing else.
pub proof fn what_a_session_prints<I, S>(
    target: DebugTarget<I, S>,
    v: ClientView,
    event: ClientEvent,
)
    ensures
        ({
            let (after, task) = v.step(target, event);
            let said = v.printed(target, event);
            let screen = debugger::screen(target.job, after.debugger);
            &&& event matches ClientEvent::Line(line) ==> said == debugger::line_notice(
                line@,
                v.debugger.current,
                v.debugger.success.len(),
            ) + (if task is ReadLine {
                screen
            } else {
                Seq::empty()
            })
            &&& !(event is Line) ==> said == (if task is ReadLine {
                screen
            } else {
                Seq::empty()
            })
        }),
{
    let (after, task) = v.step(target, event);
    let screen = debugger::screen(target.job, after.debugger);
    assert(Seq::<char>::empty() + screen == screen);
    if let ClientEvent::Line(line) = event {
        let notice = debugger::line_notice(line@, v.debugger.current, v.debugger.success.len());
        assert(notice + Seq::<char>::empty() == notice);
    }
}

/// The screen of a session tells the truth: what it shows of a step has a check mark if and
/// only if the last run of that step in the session succeeded, a cross if and only if it
/// failed, and a question mark if and only if it never ran.
pub proof fn screen_tells_the_last_run<I, S>(
    target: DebugTarget<I, S>,
    events: Seq<ClientEvent>,
    j: int,
)
    requires
        session(target, started(target), events),
        0 <= j < target.job.steps@.len(),
    ensures
        ({
            let d = state_after(target, started(target), events).debugger;
            let shown = debugger::step_entry(
                target.job.steps@[j],
                d.success[j],
                d.current,
                j,
            );
            &&& shown[2] == '✔' <==> last_run(target, events, j) == Some(true)
            &&& shown[2] == '✘' <==> last_run(target, events, j) == Some(false)
            &&& shown[2] == '?' <==> last_run(target, events, j) is None
            &&& shown[0] == '>' <==> d.current == j
        }),
{
    marks_tell_the_last_run(target, events, j);
    let d = state_after(target, started(target), events).debugger;
    debugger_laws::mark_tells_what_is_known(target.job.steps@[j], d.success[j], d.current, j);
}

/// Requests, tasks and states are looked at as they are: nothing is left out, added or
/// exchanged.
pub proof fn requests_and_tasks_are_seen_as_they_are<'a, I, S>(
    request: DebugClientRequest<'a, I, S>,
    task: ClientTask<'a, I, S>,
    client: DebugClient,
)
    ensures
        request matches DebugClientRequest::ConnectDebugClient { debug_session_id } ==> request@
            == (RequestView::<I, S>::ConnectDebugClient { debug_session_id }),
        request matches DebugClientRequest::CreateSandbox { image } ==> request@ == (RequestView::<
            I,
            S,
        >::CreateSandbox { image: *image }),
        request matches DebugClientRequest::CheckoutBranch { url, branch } ==> request@
            == (RequestView::<I, S>::CheckoutBranch { url: url@, branch: branch@ }),
        request is StartDiffUpload <==> request@ is StartDiffUpload,
        request matches DebugClientRequest::UploadDiffChunk { chunk } ==> request@
            == (RequestView::<I, S>::UploadDiffChunk { chunk: chunk@ }),
        request matches DebugClientRequest::CompleteDiffUpload { checksum } ==> request@
            == (RequestView::<I, S>::CompleteDiffUpload { checksum: checksum@ }),
        request is ApplyDiff <==> request@ is ApplyDiff,
        request matches DebugClientRequest::StartShell { step } ==> request@ == (RequestView::<
            I,
            S,
        >::StartShell { step: *step }),
        task matches ClientTask::Send(r) ==> task@ == TaskView::<I, S>::Send(r@),
        task is CreateDiff <==> task@ is CreateDiff,
        task is ReadChunk <==> task@ is ReadChunk,
        task is ReadLine <==> task@ is ReadLine,
        task matches ClientTask::RunCommand { command } ==> task@ == (TaskView::<
            I,
            S,
        >::RunCommand { command: command@ }),
        task is RunShell <==> task@ is RunShell,
        task is Finish <==> task@ is Finish,
        task matches ClientTask::Report(error) ==> task@ == TaskView::<I, S>::Report(error),
        client@.phase == client.phase,
        client@.debugger.current == client.debugger.current_step,
        client@.debugger.success == client.debugger.step_success@,
        client@.debugger.activity == client.debugger.activity,
        client.checksum matches Some(checksum) ==> client@.hashed == Some(checksum.bytes()),
        client.checksum is None <==> client@.hashed is None,
{
}

/// What went wrong in a session, in words.
pub proof fn client_errors_in_words(error: ChannelError, reason: String)
    ensures
        ClientError::Channel(error).text() == error.text(),
        ClientError::NoDiffHasher.text() == "No diff hasher"@,
        ClientError::Broken(reason).text() == reason@,
        debug_client::CHUNK_SIZE == 1024 * 1024,
{
}

} // verus!
