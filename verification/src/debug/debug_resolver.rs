//! The resolver of a debug session: it has the session created and learns where
//! the client finds it.

use crate::config::DebugSessionId;
use crate::debug::channel;
use crate::debug::channel::grant;
use crate::debug::channel::ChannelError;
use vstd::prelude::*;

verus! {

/// What the resolver asks of the server.
#[derive(Clone, Copy, Debug, PartialEq, Eq, Structural)]
pub enum DebugResolverRequest {
    CreateDebugSession { capacity: u64 },
    ResolveDebugClientConfig { debug_session_id: DebugSessionId },
}

/// A message that came from the server: an answer, or anything else.
#[allow(inconsistent_fields)]
pub enum DebugResolverReply<C> {
    CreateDebugSession { result: Result<DebugSessionId, String> },
    ResolveDebugClientConfig { result: Result<C, String> },
    Other,
}

/// What the resolver is told.
pub enum ResolverEvent<C> {
    /// The channel to the server is open, for a session of this capacity.
    Started { capacity: u64 },
    /// A message came from the server, or the channel was closed.
    Received(Option<DebugResolverReply<C>>),
    /// The tool is being shut down.
    Cancelled,
}

/// What the resolver waits for.
#[derive(Clone, Copy, Debug, PartialEq, Eq, Structural)]
pub enum ResolverPhase {
    /// The start.
    New,
    /// The answer to the request of that name.
    CreateDebugSession,
    ResolveDebugClientConfig,
    /// Nothing.
    Over,
}

/// Why a session was not resolved.
#[derive(Debug)]
pub enum ResolverError {
    /// A request was not answered as it should be.
    Channel(ChannelError),
    /// The tool was shut down.
    Cancelled,
}

/// What the resolver wants done.
pub enum ResolverTask<C> {
    /// Send this, and report the message that comes back.
    Send(DebugResolverRequest),
    /// Go on with this configuration.
    Resolved(C),
    /// End with an error.
    Fail(ResolverError),
}

impl ResolverError {
    /// What went wrong, in words.
    pub open spec fn text(self) -> Seq<char> {
        match self {
            ResolverError::Channel(error) => error.text(),
            ResolverError::Cancelled => "Cancelled"@,
        }
    }

    /// What went wrong, in words.
    pub fn message(&self) -> (r: String)
        ensures
            r@ == self.text(),
    {
        match self {
            ResolverError::Channel(error) => error.message(),
            ResolverError::Cancelled => "Cancelled".to_owned(),
        }
    }
}

/// The resolver's state.
pub struct DebugResolver {
    pub phase: ResolverPhase,
}

/// What the answer to the first request says.
pub open spec fn created<C>(reply: Option<DebugResolverReply<C>>) -> Result<
    DebugSessionId,
    ChannelError,
> {
    match reply {
        None => Err(ChannelError::Closed),
        Some(DebugResolverReply::CreateDebugSession { result }) => channel::granted(result),
        Some(_) => Err(ChannelError::Unexpected),
    }
}

/// What the answer to the second request says.
pub open spec fn resolved<C>(reply: Option<DebugResolverReply<C>>) -> Result<C, ChannelError> {
    match reply {
        None => Err(ChannelError::Closed),
        Some(DebugResolverReply::ResolveDebugClientConfig { result }) => channel::granted(result),
        Some(_) => Err(ChannelError::Unexpected),
    }
}

/// Whether a resolver in this phase can act on an event.
pub open spec fn resolver_takes<C>(phase: ResolverPhase, event: ResolverEvent<C>) -> bool {
    match event {
        ResolverEvent::Started { .. } => phase == ResolverPhase::New,
        ResolverEvent::Received(_) => phase == ResolverPhase::CreateDebugSession || phase
            == ResolverPhase::ResolveDebugClientConfig,
        ResolverEvent::Cancelled => phase != ResolverPhase::Over,
    }
}

/// What an event leads to.
pub open spec fn resolver_step<C>(phase: ResolverPhase, event: ResolverEvent<C>) -> (
    ResolverPhase,
    ResolverTask<C>,
) {
    match event {
        ResolverEvent::Started { capacity } => (
            ResolverPhase::CreateDebugSession,
            ResolverTask::Send(DebugResolverRequest::CreateDebugSession { capacity }),
        ),
        ResolverEvent::Received(reply) => if phase == ResolverPhase::CreateDebugSession {
            match created(reply) {
                Ok(debug_session_id) => (
                    ResolverPhase::ResolveDebugClientConfig,
                    ResolverTask::Send(
                        DebugResolverRequest::ResolveDebugClientConfig { debug_session_id },
                    ),
                ),
                Err(error) => (
                    ResolverPhase::Over,
                    ResolverTask::Fail(ResolverError::Channel(error)),
                ),
            }
        } else {
            match resolved(reply) {
                Ok(config) => (ResolverPhase::Over, ResolverTask::Resolved(config)),
                Err(error) => (
                    ResolverPhase::Over,
                    ResolverTask::Fail(ResolverError::Channel(error)),
                ),
            }
        },
        ResolverEvent::Cancelled => (
            ResolverPhase::Over,
            ResolverTask::Fail(ResolverError::Cancelled),
        ),
    }
}

impl DebugResolver {
    /// A resolver that has not started.
    pub fn new() -> (r: DebugResolver)
        ensures
            r.phase == ResolverPhase::New,
    {
        DebugResolver { phase: ResolverPhase::New }
    }

    /// Whether the resolver can act on an event.
    pub fn can_take<C>(&self, event: &ResolverEvent<C>) -> (r: bool)
        ensures
            r == resolver_takes(self.phase, *event),
    {
        match event {
            ResolverEvent::Started { .. } => self.phase == ResolverPhase::New,
            ResolverEvent::Received(_) => self.phase == ResolverPhase::CreateDebugSession
                || self.phase == ResolverPhase::ResolveDebugClientConfig,
            ResolverEvent::Cancelled => self.phase != ResolverPhase::Over,
        }
    }

    /// Has the session that the server created resolved.
    fn create_debug_session<C>(&mut self, reply: Option<DebugResolverReply<C>>) -> (r: ResolverTask<
        C,
    >)
        requires
            old(self).phase == ResolverPhase::CreateDebugSession,
        ensures
            (final(self).phase, r) == resolver_step(
                old(self).phase,
                ResolverEvent::Received(reply),
            ),
    {
        let answer = match reply {
            None => Err(ChannelError::Closed),
            Some(DebugResolverReply::CreateDebugSession { result }) => grant(result),
            Some(_) => Err(ChannelError::Unexpected),
        };
        match answer {
            Ok(debug_session_id) => {
                self.phase = ResolverPhase::ResolveDebugClientConfig;
                ResolverTask::Send(
                    DebugResolverRequest::ResolveDebugClientConfig { debug_session_id },
                )
            },
            Err(error) => {
                self.phase = ResolverPhase::Over;
                ResolverTask::Fail(ResolverError::Channel(error))
            },
        }
    }

    /// Takes the configuration that the server gives.
    fn resolve_debug_client_config<C>(&mut self, reply: Option<DebugResolverReply<C>>) -> (r:
        ResolverTask<C>)
        requires
            old(self).phase == ResolverPhase::ResolveDebugClientConfig,
        ensures
            (final(self).phase, r) == resolver_step(
                old(self).phase,
                ResolverEvent::Received(reply),
            ),
    {
        self.phase = ResolverPhase::Over;
        let answer = match reply {
            None => Err(ChannelError::Closed),
            Some(DebugResolverReply::ResolveDebugClientConfig { result }) => grant(result),
            Some(_) => Err(ChannelError::Unexpected),
        };
        match answer {
            Ok(config) => ResolverTask::Resolved(config),
            Err(error) => ResolverTask::Fail(ResolverError::Channel(error)),
        }
    }

    /// Acts on an event.
    pub fn advance<C>(&mut self, event: ResolverEvent<C>) -> (r: ResolverTask<C>)
        requires
            resolver_takes(old(self).phase, event),
        ensures
            (final(self).phase, r) == resolver_step(old(self).phase, event),
    {
        match event {
            ResolverEvent::Started { capacity } => {
                self.phase = ResolverPhase::CreateDebugSession;
                ResolverTask::Send(DebugResolverRequest::CreateDebugSession { capacity })
            },
            ResolverEvent::Received(reply) => {
                if self.phase == ResolverPhase::CreateDebugSession {
                    self.create_debug_session(reply)
                } else {
                    self.resolve_debug_client_config(reply)
                }
            },
            ResolverEvent::Cancelled => {
                self.phase = ResolverPhase::Over;
                ResolverTask::Fail(ResolverError::Cancelled)
            },
        }
    }
}

/// A configuration is only ever the one that the server gave for the session that
/// it created: the resolver asks for the capacity, asks about the session that the
/// first answer names, and hands on what the second answer holds.
pub proof fn resolves_the_created_session<C>(
    capacity: u64,
    first: Option<DebugResolverReply<C>>,
    second: Option<DebugResolverReply<C>>,
)
    ensures
        ({
            let (p1, t1) = resolver_step(
                ResolverPhase::New,
                ResolverEvent::<C>::Started { capacity },
            );
            let (p2, t2) = resolver_step(p1, ResolverEvent::Received(first));
            let (p3, t3) = resolver_step(p2, ResolverEvent::Received(second));
            &&& t1 == ResolverTask::<C>::Send(DebugResolverRequest::CreateDebugSession { capacity })
            &&& t2 is Send <==> created(first) is Ok
            &&& t2 is Send ==> t2 == ResolverTask::<C>::Send(
                DebugResolverRequest::ResolveDebugClientConfig {
                    debug_session_id: created(first)->Ok_0,
                },
            )
            &&& !(t2 is Resolved)
            &&& t2 is Send ==> (t3 is Resolved <==> resolved(second) is Ok)
            &&& t2 is Send && t3 is Resolved ==> t3 == ResolverTask::<C>::Resolved(
                resolved(second)->Ok_0,
            )
        }),
{
}

/// What an answer means for a resolver: only the answer to the request that was sent last
/// counts, a refusal keeps its reason, and anything else is told apart. Whatever goes wrong
/// ends the resolver with that error, and so does shutting the tool down, at any time.
pub proof fn resolver_ends_for_the_right_reason<C>(
    reply: DebugResolverReply<C>,
    id: DebugSessionId,
    config: C,
    reason: String,
    phase: ResolverPhase,
    next: ResolverEvent<C>,
)
    ensures
        ({
            let first = ResolverPhase::CreateDebugSession;
            let second = ResolverPhase::ResolveDebugClientConfig;
            let closed = ResolverTask::<C>::Fail(ResolverError::Channel(ChannelError::Closed));
            let wrong = ResolverTask::<C>::Fail(ResolverError::Channel(ChannelError::Unexpected));
            let refused = ResolverTask::<C>::Fail(
                ResolverError::Channel(ChannelError::Rejected(reason)),
            );
            &&& resolver_step(first, ResolverEvent::<C>::Received(None)) == (
                ResolverPhase::Over,
                closed,
            )
            &&& resolver_step(second, ResolverEvent::<C>::Received(None)) == (
                ResolverPhase::Over,
                closed,
            )
            &&& !(reply is CreateDebugSession) ==> resolver_step(
                first,
                ResolverEvent::Received(Some(reply)),
            ) == (ResolverPhase::Over, wrong)
            &&& !(reply is ResolveDebugClientConfig) ==> resolver_step(
                second,
                ResolverEvent::Received(Some(reply)),
            ) == (ResolverPhase::Over, wrong)
            &&& reply == (DebugResolverReply::<C>::CreateDebugSession { result: Err(reason) })
                ==> resolver_step(first, ResolverEvent::Received(Some(reply))) == (
                ResolverPhase::Over,
                refused,
            )
            &&& reply == (DebugResolverReply::<C>::ResolveDebugClientConfig { result: Err(reason) })
                ==> resolver_step(second, ResolverEvent::Received(Some(reply))) == (
                ResolverPhase::Over,
                refused,
            )
            &&& reply == (DebugResolverReply::<C>::CreateDebugSession { result: Ok(id) })
                ==> resolver_step(first, ResolverEvent::Received(Some(reply))) == (
                second,
                ResolverTask::<C>::Send(
                    DebugResolverRequest::ResolveDebugClientConfig { debug_session_id: id },
                ),
            )
            &&& reply == (DebugResolverReply::<C>::ResolveDebugClientConfig { result: Ok(config) })
                ==> resolver_step(second, ResolverEvent::Received(Some(reply))) == (
                ResolverPhase::Over,
                ResolverTask::<C>::Resolved(config),
            )
            &&& resolver_step(phase, ResolverEvent::<C>::Cancelled) == (
                ResolverPhase::Over,
                ResolverTask::<C>::Fail(ResolverError::Cancelled),
            )
            &&& !resolver_takes(ResolverPhase::Over, next)
        }),
{
}

/// What a resolver acts on: its start once, an answer where it waits for one, whatever the
/// answer is, and the shutdown until it is over.
pub proof fn resolver_acts_on_what_it_waits_for<C>(
    phase: ResolverPhase,
    capacity: u64,
    reply: Option<DebugResolverReply<C>>,
)
    ensures
        resolver_takes(phase, ResolverEvent::<C>::Started { capacity }) <==> phase
            == ResolverPhase::New,
        resolver_takes(phase, ResolverEvent::Received(reply)) <==> phase
            == ResolverPhase::CreateDebugSession || phase
            == ResolverPhase::ResolveDebugClientConfig,
        resolver_takes(phase, ResolverEvent::<C>::Cancelled) <==> phase != ResolverPhase::Over,
        resolver_step(ResolverPhase::New, ResolverEvent::<C>::Started { capacity }) == (
            ResolverPhase::CreateDebugSession,
            ResolverTask::<C>::Send(DebugResolverRequest::CreateDebugSession { capacity }),
        ),
{
}

/// Why a session was not resolved, in words.
pub proof fn resolver_errors_in_words(error: ChannelError)
    ensures
        ResolverError::Channel(error).text() == error.text(),
        ResolverError::Cancelled.text() == "Cancelled"@,
{
}

} // verus!
