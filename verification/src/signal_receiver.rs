//! The watch for the signals that shut the tool down.

use vstd::prelude::*;

verus! {

/// Why the watch could not be kept.
#[derive(Debug)]
pub enum SignalReceiverError {
    SigintInstallFailed(String),
    SigtermInstallFailed(String),
}

impl SignalReceiverError {
    /// What went wrong, in words.
    pub open spec fn text(self) -> Seq<char> {
        match self {
            SignalReceiverError::SigintInstallFailed(reason) => {
                "failed to install SIGINT handler: "@ + reason@
            },
            SignalReceiverError::SigtermInstallFailed(reason) => {
                "failed to install SIGTERM handler: "@ + reason@
            },
        }
    }

    /// What went wrong, in words.
    pub fn message(&self) -> (r: String)
        ensures
            r@ == self.text(),
    {
        match self {
            SignalReceiverError::SigintInstallFailed(reason) => {
                let mut r = "failed to install SIGINT handler: ".to_owned();
                r.append(reason.as_str());
                r
            },
            SignalReceiverError::SigtermInstallFailed(reason) => {
                let mut r = "failed to install SIGTERM handler: ".to_owned();
                r.append(reason.as_str());
                r
            },
        }
    }
}

/// What the watch is told.
pub enum SignalEvent {
    Started,
    /// The handler that was asked for is installed, or could not be.
    Installed(Result<(), String>),
    /// SIGINT or SIGTERM came.
    Signalled,
    /// The tool is being shut down by someone else.
    Cancelled,
}

/// What the watch waits for.
#[derive(Clone, Copy, Debug, PartialEq, Eq, Structural)]
pub enum SignalPhase {
    New,
    InstallInterrupt,
    InstallTerminate,
    Watch,
    Over,
}

/// What the watch wants done.
pub enum SignalTask {
    /// Install a handler for SIGINT.
    InstallInterrupt,
    /// Install a handler for SIGTERM.
    InstallTerminate,
    /// Wait for either signal.
    Watch,
    /// End, with this result; with `cancel`, shut the tool down first.
    Finish { cancel: bool, result: Result<(), SignalReceiverError> },
}

/// The watch.
pub struct SignalReceiver {
    pub phase: SignalPhase,
}

/// Whether a watch in this phase can act on an event.
pub open spec fn signal_takes(phase: SignalPhase, event: SignalEvent) -> bool {
    match event {
        SignalEvent::Started => phase == SignalPhase::New,
        SignalEvent::Installed(_) => phase == SignalPhase::InstallInterrupt || phase
            == SignalPhase::InstallTerminate,
        SignalEvent::Signalled => phase == SignalPhase::Watch,
        SignalEvent::Cancelled => phase != SignalPhase::Over,
    }
}

/// What an event leads to.
pub open spec fn signal_step(phase: SignalPhase, event: SignalEvent) -> (SignalPhase, SignalTask) {
    match event {
        SignalEvent::Started => (SignalPhase::InstallInterrupt, SignalTask::InstallInterrupt),
        SignalEvent::Installed(Ok(_)) => if phase == SignalPhase::InstallInterrupt {
            (SignalPhase::InstallTerminate, SignalTask::InstallTerminate)
        } else {
            (SignalPhase::Watch, SignalTask::Watch)
        },
        SignalEvent::Installed(Err(reason)) => (
            SignalPhase::Over,
            SignalTask::Finish {
                cancel: true,
                result: Err(
                    if phase == SignalPhase::InstallInterrupt {
                        SignalReceiverError::SigintInstallFailed(reason)
                    } else {
                        SignalReceiverError::SigtermInstallFailed(reason)
                    },
                ),
            },
        ),
        SignalEvent::Signalled => (
            SignalPhase::Over,
            SignalTask::Finish { cancel: true, result: Ok(()) },
        ),
        SignalEvent::Cancelled => (
            SignalPhase::Over,
            SignalTask::Finish { cancel: false, result: Ok(()) },
        ),
    }
}

impl SignalReceiver {
    /// A watch that has not started.
    pub fn new() -> (r: SignalReceiver)
        ensures
            r.phase == SignalPhase::New,
    {
        SignalReceiver { phase: SignalPhase::New }
    }

    /// Whether the watch can act on an event.
    pub fn can_take(&self, event: &SignalEvent) -> (r: bool)
        ensures
            r == signal_takes(self.phase, *event),
    {
        match event {
            SignalEvent::Started => self.phase == SignalPhase::New,
            SignalEvent::Installed(_) => self.phase == SignalPhase::InstallInterrupt || self.phase
                == SignalPhase::InstallTerminate,
            SignalEvent::Signalled => self.phase == SignalPhase::Watch,
            SignalEvent::Cancelled => self.phase != SignalPhase::Over,
        }
    }

    /// Acts on an event.
    pub fn advance(&mut self, event: SignalEvent) -> (r: SignalTask)
        requires
            signal_takes(old(self).phase, event),
        ensures
            (final(self).phase, r) == signal_step(old(self).phase, event),
    {
        let phase = self.phase;
        match event {
            SignalEvent::Started => {
                self.phase = SignalPhase::InstallInterrupt;
                SignalTask::InstallInterrupt
            },
            SignalEvent::Installed(Ok(_)) => {
                if phase == SignalPhase::InstallInterrupt {
                    self.phase = SignalPhase::InstallTerminate;
                    SignalTask::InstallTerminate
                } else {
                    self.phase = SignalPhase::Watch;
                    SignalTask::Watch
                }
            },
            SignalEvent::Installed(Err(reason)) => {
                self.phase = SignalPhase::Over;
                let error = if phase == SignalPhase::InstallInterrupt {
                    SignalReceiverError::SigintInstallFailed(reason)
                } else {
                    SignalReceiverError::SigtermInstallFailed(reason)
                };
                SignalTask::Finish { cancel: true, result: Err(error) }
            },
            SignalEvent::Signalled => {
                self.phase = SignalPhase::Over;
                SignalTask::Finish { cancel: true, result: Ok(()) }
            },
            SignalEvent::Cancelled => {
                self.phase = SignalPhase::Over;
                SignalTask::Finish { cancel: false, result: Ok(()) }
            },
        }
    }
}

/// What the watch waits for after these events.
pub open spec fn signal_after(events: Seq<SignalEvent>) -> SignalPhase
    decreases events.len(),
{
    if events.len() == 0 {
        SignalPhase::New
    } else {
        signal_step(signal_after(events.drop_last()), events.last()).0
    }
}

/// Whether the watch could act on each of these events when it came.
pub open spec fn signal_session(events: Seq<SignalEvent>) -> bool
    decreases events.len(),
{
    events.len() == 0 || signal_session(events.drop_last()) && signal_takes(
        signal_after(events.drop_last()),
        events.last(),
    )
}

/// What the last event made the watch ask for.
pub open spec fn last_signal_task(events: Seq<SignalEvent>) -> SignalTask {
    signal_step(signal_after(events.drop_last()), events.last()).1
}

/// Whether the tool is shut down after these events: the watch has done it, or someone
/// else.
pub open spec fn shut_down(events: Seq<SignalEvent>) -> bool
    decreases events.len(),
{
    events.len() > 0 && (shut_down(events.drop_last()) || events.last() is Cancelled || (
    last_signal_task(events) matches SignalTask::Finish { cancel, .. } && cancel))
}

/// Whether an event says that a handler is installed.
pub open spec fn installed(event: SignalEvent) -> bool {
    event matches SignalEvent::Installed(Ok(_))
}

/// How many events there have been says what the watch waits for.
proof fn signal_history(events: Seq<SignalEvent>)
    requires
        signal_session(events),
    ensures
        match signal_after(events) {
            SignalPhase::New => events.len() == 0,
            SignalPhase::InstallInterrupt => events.len() == 1,
            SignalPhase::InstallTerminate => events.len() == 2 && installed(events[1]),
            SignalPhase::Watch => events.len() == 3 && installed(events[1]) && installed(
                events[2],
            ),
            SignalPhase::Over => true,
        },
        shut_down(events) <==> signal_after(events) == SignalPhase::Over,
    decreases events.len(),
{
    if events.len() > 0 {
        let front = events.drop_last();
        signal_history(front);
        if front.len() >= 2 {
            assert(events[1] == front[1]);
        }
    }
}

/// The tool is shut down whenever the watch ends, with an error or without, and not
/// before. The watch ends only on a signal, once both handlers are installed, when someone
/// else shuts the tool down, or when a handler could not be installed. It ends with an
/// error if and only if a handler could not be installed, and the error says which and
/// why. It shuts the tool down itself unless someone else did.
pub proof fn end_shuts_down(events: Seq<SignalEvent>)
    requires
        signal_session(events),
        events.len() > 0,
    ensures
        shut_down(events) <==> signal_after(events) == SignalPhase::Over,
        signal_after(events) == SignalPhase::Over <==> last_signal_task(events) is Finish,
        last_signal_task(events) matches SignalTask::Finish { cancel, result } ==> {
            &&& cancel <==> !(events.last() is Cancelled)
            &&& match events.last() {
                SignalEvent::Signalled => result is Ok && events.len() == 4 && installed(events[1])
                    && installed(events[2]),
                SignalEvent::Cancelled => result is Ok,
                SignalEvent::Installed(Err(reason)) => {
                    ||| events.len() == 2 && result == Err::<(), SignalReceiverError>(
                        SignalReceiverError::SigintInstallFailed(reason),
                    )
                    ||| events.len() == 3 && installed(events[1]) && result
                        == Err::<(), SignalReceiverError>(
                        SignalReceiverError::SigtermInstallFailed(reason),
                    )
                },
                _ => false,
            }
        },
{
    let front = events.drop_last();
    signal_history(front);
    signal_history(events);
    if front.len() >= 2 {
        assert(events[1] == front[1]);
    }
    if front.len() >= 3 {
        assert(events[2] == front[2]);
    }
}

/// The watch installs the handler for SIGINT, then the one for SIGTERM, and then waits for
/// either signal. It can be ended by the shutdown of the tool at any time until it is over.
pub proof fn watch_is_set_up_in_order(
    phase: SignalPhase,
    result: Result<(), String>,
    next: SignalEvent,
)
    ensures
        ({
            let ok = SignalEvent::Installed(Ok(()));
            let (p1, t1) = signal_step(SignalPhase::New, SignalEvent::Started);
            let (p2, t2) = signal_step(p1, ok);
            let (p3, t3) = signal_step(p2, ok);
            &&& signal_takes(SignalPhase::New, SignalEvent::Started) && t1 is InstallInterrupt
            &&& signal_takes(p1, SignalEvent::Installed(result)) && t2 is InstallTerminate
            &&& signal_takes(p2, SignalEvent::Installed(result)) && t3 is Watch
            &&& signal_takes(p3, SignalEvent::Signalled)
            &&& signal_takes(phase, SignalEvent::Cancelled) <==> phase != SignalPhase::Over
            &&& !signal_takes(SignalPhase::Over, next)
        }),
{
}

/// Why the watch could not be kept, in words.
pub proof fn signal_errors_in_words(reason: String)
    ensures
        SignalReceiverError::SigintInstallFailed(reason).text()
            == "failed to install SIGINT handler: "@ + reason@,
        SignalReceiverError::SigtermInstallFailed(reason).text()
            == "failed to install SIGTERM handler: "@ + reason@,
{
}

} // verus!
