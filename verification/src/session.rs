//! The life of one proxied connection, as a state machine.
//!
//! The caller does the work that takes a socket (authenticating, connecting,
//! reading, writing) and reports each outcome as an [`Event`]. [`step`] says
//! which [`Phase`] follows and which [`Action`] the caller takes next.

use vstd::prelude::*;

verus! {

/// The outbound connection is given up after this many seconds.
pub const CONNECT_TIMEOUT_SECS: u64 = 30;

/// The command that the client sent once it was authenticated.
#[derive(Clone, Copy, Debug, PartialEq, Eq, Structural)]
pub enum Command {
    Connect,
    Bind,
    /// A UDP association; `socket_address` says whether the client named a
    /// socket address (and not a domain) as its own.
    Associate { socket_address: bool },
}

/// The replies that are sent to the client.
#[derive(Clone, Copy, Debug, PartialEq, Eq, Structural)]
pub enum Reply {
    Succeeded,
    HostUnreachable,
    TtlExpired,
    CommandNotSupported,
}

/// How the attempt to connect to the target ended.
#[derive(Clone, Copy, Debug, PartialEq, Eq, Structural)]
pub enum ConnectOutcome {
    Connected,
    /// The connection failed before the timeout.
    Unreachable,
    TimedOut,
}

/// Where a connection stands.
#[derive(Clone, Copy, Debug, PartialEq, Eq, Structural)]
pub enum Phase {
    /// Accepted and admitted; authentication is under way.
    Accepted,
    /// Authenticated; waiting for the command.
    Authenticated,
    /// Connecting to the target.
    Connecting,
    /// Connected; the reply that says so is being sent.
    Replying,
    /// The destination is being looked up among those known not to speak
    /// HTTP.
    CheckingCache,
    /// Waiting for the client's first bytes.
    Sniffing,
    /// An HTTP request has begun; its head is being assembled.
    Assembling,
    /// The first bytes, as read or rewritten, are being written to the
    /// target.
    Forwarding,
    /// Bytes flow both ways.
    Relaying,
    /// A socket for the UDP association is being bound.
    Associating,
    /// The reply that names the UDP socket is being sent.
    AssociateReplying,
    /// Datagrams are being relayed.
    UdpRelaying,
    /// Ended in order.
    Closed,
    /// Ended by a failure.
    Failed,
}

/// What the caller reports.
#[derive(Clone, Copy, Debug, PartialEq, Eq, Structural)]
pub enum Event {
    Authenticated,
    AuthenticationFailed,
    CommandReceived(Command),
    CommandWaitFailed,
    ConnectFinished(ConnectOutcome),
    ReplySent,
    ReplyFailed,
    CacheHit,
    CacheMiss,
    /// The client closed before it sent a byte.
    ClientClosed,
    /// The first bytes begin an HTTP request.
    HttpDetected,
    /// The first bytes begin no HTTP request.
    NotHttp,
    /// The request's head is not assembled yet.
    NeedMore,
    /// The request's head is assembled as far as it will be.
    HeadAssembled,
    ReadFailed,
    Forwarded,
    ForwardFailed,
    RelayFinished,
    UdpBound,
    UdpBindFailed,
    UdpFinished,
}

/// What the caller does next.
#[derive(Clone, Copy, Debug, PartialEq, Eq, Structural)]
pub enum Action {
    WaitForCommand,
    /// Connect to the target, giving up after `CONNECT_TIMEOUT_SECS`.
    ConnectTarget,
    /// Send this reply. Where the phase that follows is an end, the
    /// connection is closed behind it, whether or not the reply went out.
    SendReply(Reply),
    LookupCache,
    /// Read the client's first bytes.
    ReadInitial,
    /// Read more of the request from the client.
    ReadMore,
    /// Record the destination as one that does not speak HTTP, and write the
    /// bytes read to the target as they are.
    RememberAndForward,
    /// Rewrite the `User-Agent` header of the assembled bytes and write them
    /// to the target.
    RewriteAndForward,
    /// Relay both ways until both directions have stopped.
    Relay,
    BindUdp,
    PumpUdp,
    /// Shut down the client's stream.
    ShutdownClient,
    /// Shut down the client's stream and the target's.
    ShutdownBoth,
    /// Nothing: the connection has ended.
    Nothing,
}

/// A connection in this phase has ended.
pub open spec fn spec_is_terminal(phase: Phase) -> bool {
    phase == Phase::Closed || phase == Phase::Failed
}

/// The reply that tells the client how the attempt to connect ended.
pub open spec fn spec_reply_for(outcome: ConnectOutcome) -> Reply {
    match outcome {
        ConnectOutcome::Connected => Reply::Succeeded,
        ConnectOutcome::Unreachable => Reply::HostUnreachable,
        ConnectOutcome::TimedOut => Reply::TtlExpired,
    }
}

/// How far a phase is along the way of a connection. No step leads to a
/// phase of a lower rank.
pub open spec fn spec_rank(phase: Phase) -> nat {
    match phase {
        Phase::Accepted => 0,
        Phase::Authenticated => 1,
        Phase::Connecting => 2,
        Phase::Associating => 2,
        Phase::Replying => 3,
        Phase::AssociateReplying => 3,
        Phase::CheckingCache => 4,
        Phase::UdpRelaying => 4,
        Phase::Sniffing => 5,
        Phase::Assembling => 6,
        Phase::Forwarding => 7,
        Phase::Relaying => 8,
        Phase::Closed => 9,
        Phase::Failed => 9,
    }
}

/// The phase and the action that follow `event` in `phase`.
///
/// An ended connection stays as it is. An event that the phase does not
/// expect fails the connection, and both streams are shut down.
pub open spec fn spec_step(phase: Phase, event: Event) -> (Phase, Action) {
    match (phase, event) {
        (Phase::Closed, _) => (Phase::Closed, Action::Nothing),
        (Phase::Failed, _) => (Phase::Failed, Action::Nothing),
        (Phase::Accepted, Event::Authenticated) => (Phase::Authenticated, Action::WaitForCommand),
        (Phase::Accepted, Event::AuthenticationFailed) => (Phase::Failed, Action::ShutdownClient),
        (Phase::Authenticated, Event::CommandReceived(command)) => match command {
            Command::Connect => (Phase::Connecting, Action::ConnectTarget),
            Command::Bind => (Phase::Closed, Action::SendReply(Reply::CommandNotSupported)),
            Command::Associate { socket_address } => if socket_address {
                (Phase::Associating, Action::BindUdp)
            } else {
                (Phase::Closed, Action::SendReply(Reply::CommandNotSupported))
            },
        },
        (Phase::Authenticated, Event::CommandWaitFailed) => (Phase::Failed, Action::ShutdownClient),
        (Phase::Connecting, Event::ConnectFinished(outcome)) => (
            if outcome == ConnectOutcome::Connected {
                Phase::Replying
            } else {
                Phase::Failed
            },
            Action::SendReply(spec_reply_for(outcome)),
        ),
        (Phase::Replying, Event::ReplySent) => (Phase::CheckingCache, Action::LookupCache),
        (Phase::CheckingCache, Event::CacheHit) => (Phase::Relaying, Action::Relay),
        (Phase::CheckingCache, Event::CacheMiss) => (Phase::Sniffing, Action::ReadInitial),
        (Phase::Sniffing, Event::ClientClosed) => (Phase::Closed, Action::ShutdownBoth),
        (Phase::Sniffing, Event::HttpDetected) => (Phase::Assembling, Action::ReadMore),
        (Phase::Sniffing, Event::NotHttp) => (Phase::Forwarding, Action::RememberAndForward),
        (Phase::Assembling, Event::NeedMore) => (Phase::Assembling, Action::ReadMore),
        (Phase::Assembling, Event::HeadAssembled) => (Phase::Forwarding, Action::RewriteAndForward),
        (Phase::Forwarding, Event::Forwarded) => (Phase::Relaying, Action::Relay),
        (Phase::Relaying, Event::RelayFinished) => (Phase::Closed, Action::ShutdownBoth),
        (Phase::Associating, Event::UdpBound) => (
            Phase::AssociateReplying,
            Action::SendReply(Reply::Succeeded),
        ),
        (Phase::Associating, Event::UdpBindFailed) => (Phase::Failed, Action::ShutdownClient),
        (Phase::AssociateReplying, Event::ReplySent) => (Phase::UdpRelaying, Action::PumpUdp),
        (Phase::AssociateReplying, Event::ReplyFailed) => (Phase::Failed, Action::ShutdownClient),
        (Phase::UdpRelaying, Event::UdpFinished) => (Phase::Closed, Action::ShutdownClient),
        _ => (Phase::Failed, Action::ShutdownBoth),
    }
}

/// Whether a connection in this phase has ended.
pub fn is_terminal(phase: Phase) -> (r: bool)
    ensures
        r == spec_is_terminal(phase),
{
    match phase {
        Phase::Closed => true,
        Phase::Failed => true,
        _ => false,
    }
}

/// The reply that tells the client how the attempt to connect ended:
/// `Succeeded` once connected, `HostUnreachable` after a failure,
/// `TtlExpired` after the timeout.
pub fn reply_for(outcome: ConnectOutcome) -> (reply: Reply)
    ensures
        reply == spec_reply_for(outcome),
{
    match outcome {
        ConnectOutcome::Connected => Reply::Succeeded,
        ConnectOutcome::Unreachable => Reply::HostUnreachable,
        ConnectOutcome::TimedOut => Reply::TtlExpired,
    }
}

/// The phase and the action that follow `event` in `phase`.
pub fn step(phase: Phase, event: Event) -> (next: (Phase, Action))
    ensures
        next == spec_step(phase, event),
        spec_rank(next.0) >= spec_rank(phase),
        spec_is_terminal(phase) ==> next == (phase, Action::Nothing),
        next.0 == Phase::Forwarding ==> spec_rank(phase) < spec_rank(Phase::Forwarding),
{
    match phase {
        Phase::Closed => (Phase::Closed, Action::Nothing),
        Phase::Failed => (Phase::Failed, Action::Nothing),
        Phase::Accepted => match event {
            Event::Authenticated => (Phase::Authenticated, Action::WaitForCommand),
            Event::AuthenticationFailed => (Phase::Failed, Action::ShutdownClient),
            _ => (Phase::Failed, Action::ShutdownBoth),
        },
        Phase::Authenticated => match event {
            Event::CommandReceived(Command::Connect) => (Phase::Connecting, Action::ConnectTarget),
            Event::CommandReceived(Command::Associate { socket_address: true }) => (
                Phase::Associating,
                Action::BindUdp,
            ),
            Event::CommandReceived(_) => (
                Phase::Closed,
                Action::SendReply(Reply::CommandNotSupported),
            ),
            Event::CommandWaitFailed => (Phase::Failed, Action::ShutdownClient),
            _ => (Phase::Failed, Action::ShutdownBoth),
        },
        Phase::Connecting => match event {
            Event::ConnectFinished(ConnectOutcome::Connected) => (
                Phase::Replying,
                Action::SendReply(Reply::Succeeded),
            ),
            Event::ConnectFinished(outcome) => (Phase::Failed, Action::SendReply(reply_for(outcome))),
            _ => (Phase::Failed, Action::ShutdownBoth),
        },
        Phase::Replying => match event {
            Event::ReplySent => (Phase::CheckingCache, Action::LookupCache),
            _ => (Phase::Failed, Action::ShutdownBoth),
        },
        Phase::CheckingCache => match event {
            Event::CacheHit => (Phase::Relaying, Action::Relay),
            Event::CacheMiss => (Phase::Sniffing, Action::ReadInitial),
            _ => (Phase::Failed, Action::ShutdownBoth),
        },
        Phase::Sniffing => match event {
            Event::ClientClosed => (Phase::Closed, Action::ShutdownBoth),
            Event::HttpDetected => (Phase::Assembling, Action::ReadMore),
            Event::NotHttp => (Phase::Forwarding, Action::RememberAndForward),
            _ => (Phase::Failed, Action::ShutdownBoth),
        },
        Phase::Assembling => match event {
            Event::NeedMore => (Phase::Assembling, Action::ReadMore),
            Event::HeadAssembled => (Phase::Forwarding, Action::RewriteAndForward),
            _ => (Phase::Failed, Action::ShutdownBoth),
        },
        Phase::Forwarding => match event {
            Event::Forwarded => (Phase::Relaying, Action::Relay),
            _ => (Phase::Failed, Action::ShutdownBoth),
        },
        Phase::Relaying => match event {
            Event::RelayFinished => (Phase::Closed, Action::ShutdownBoth),
            _ => (Phase::Failed, Action::ShutdownBoth),
        },
        Phase::Associating => match event {
            Event::UdpBound => (Phase::AssociateReplying, Action::SendReply(Reply::Succeeded)),
            Event::UdpBindFailed => (Phase::Failed, Action::ShutdownClient),
            _ => (Phase::Failed, Action::ShutdownBoth),
        },
        Phase::AssociateReplying => match event {
            Event::ReplySent => (Phase::UdpRelaying, Action::PumpUdp),
            Event::ReplyFailed => (Phase::Failed, Action::ShutdownClient),
            _ => (Phase::Failed, Action::ShutdownBoth),
        },
        Phase::UdpRelaying => match event {
            Event::UdpFinished => (Phase::Closed, Action::ShutdownClient),
            _ => (Phase::Failed, Action::ShutdownBoth),
        },
    }
}

/// The phase that a run of events leads to.
pub open spec fn spec_run(phase: Phase, events: Seq<Event>) -> Phase
    decreases events.len(),
{
    if events.len() == 0 {
        phase
    } else {
        spec_run(spec_step(phase, events[0]).0, events.drop_first())
    }
}

/// An action that writes the client's first bytes to the target.
pub open spec fn spec_is_forward(action: Action) -> bool {
    action == Action::RememberAndForward || action == Action::RewriteAndForward
}

/// How often a run of events has the client's first bytes written to the
/// target.
pub open spec fn spec_forward_count(phase: Phase, events: Seq<Event>) -> nat
    decreases events.len(),
{
    if events.len() == 0 {
        0
    } else {
        let (next, action) = spec_step(phase, events[0]);
        let rest = spec_forward_count(next, events.drop_first());
        if spec_is_forward(action) {
            rest + 1
        } else {
            rest
        }
    }
}

/// How often a run of events ends the connection: leads from a phase that
/// is no end to one that is. The connection's place among the admitted ones
/// is given back then.
pub open spec fn spec_end_count(phase: Phase, events: Seq<Event>) -> nat
    decreases events.len(),
{
    if events.len() == 0 {
        0
    } else {
        let next = spec_step(phase, events[0]).0;
        let rest = spec_end_count(next, events.drop_first());
        if !spec_is_terminal(phase) && spec_is_terminal(next) {
            rest + 1
        } else {
            rest
        }
    }
}

/// No step leads back: the phase that follows has no lower rank.
pub proof fn lemma_step_never_goes_back(phase: Phase, event: Event)
    ensures
        spec_rank(spec_step(phase, event).0) >= spec_rank(phase),
{
}

/// An ended connection stays ended, whatever is reported.
pub proof fn lemma_end_is_final(phase: Phase, events: Seq<Event>)
    requires
        spec_is_terminal(phase),
    ensures
        spec_run(phase, events) == phase,
        spec_forward_count(phase, events) == 0,
        spec_end_count(phase, events) == 0,
    decreases events.len(),
{
    if events.len() > 0 {
        lemma_end_is_final(phase, events.drop_first());
    }
}

/// Whatever is reported, the client's first bytes are written to the target
/// at most once, and not at all once they have been written.
pub proof fn lemma_forwards_at_most_once(phase: Phase, events: Seq<Event>)
    ensures
        spec_forward_count(phase, events) <= 1,
        spec_rank(phase) >= spec_rank(Phase::Forwarding) ==> spec_forward_count(phase, events) == 0,
    decreases events.len(),
{
    if events.len() > 0 {
        let (next, action) = spec_step(phase, events[0]);
        lemma_forwards_at_most_once(next, events.drop_first());
    }
}

/// Whatever is reported, a connection ends at most once.
pub proof fn lemma_ends_at_most_once(phase: Phase, events: Seq<Event>)
    ensures
        spec_end_count(phase, events) <= 1,
    decreases events.len(),
{
    if events.len() > 0 {
        let next = spec_step(phase, events[0]).0;
        if spec_is_terminal(next) {
            lemma_end_is_final(next, events.drop_first());
        } else {
            lemma_ends_at_most_once(next, events.drop_first());
        }
    }
}

/// The client's first bytes are read only after the destination was looked
/// up and not found.
pub proof fn lemma_sniffing_follows_a_miss(phase: Phase, event: Event)
    requires
        spec_step(phase, event).0 == Phase::Sniffing,
    ensures
        phase == Phase::CheckingCache,
        event == Event::CacheMiss,
{
}

/// A destination is recorded as one that does not speak HTTP only when the
/// client's first bytes have been found to begin no HTTP request.
pub proof fn lemma_remembering_follows_not_http(phase: Phase, event: Event)
    requires
        spec_step(phase, event).1 == Action::RememberAndForward,
    ensures
        phase == Phase::Sniffing,
        event == Event::NotHttp,
{
}

/// The header is rewritten only when the head of an HTTP request has been
/// assembled.
pub proof fn lemma_rewriting_follows_assembly(phase: Phase, event: Event)
    requires
        spec_step(phase, event).1 == Action::RewriteAndForward,
    ensures
        phase == Phase::Assembling,
        event == Event::HeadAssembled,
{
}

/// Relaying begins only when the first bytes have been written to the
/// target, or when the destination was found among those known not to speak
/// HTTP.
pub proof fn lemma_relaying_follows_forward_or_hit(phase: Phase, event: Event)
    requires
        spec_step(phase, event).1 == Action::Relay,
    ensures
        (phase == Phase::Forwarding && event == Event::Forwarded) || (phase == Phase::CheckingCache
            && event == Event::CacheHit),
{
}

/// The reply `Succeeded` is sent only once the target is connected, or the
/// socket of a UDP association is bound; every other outcome of connecting
/// has its own reply and fails the connection.
pub proof fn lemma_replies_follow_outcomes(phase: Phase, event: Event)
    ensures
        spec_step(phase, event).1 == Action::SendReply(Reply::Succeeded) ==> (phase
            == Phase::Connecting && event == Event::ConnectFinished(ConnectOutcome::Connected))
            || (phase == Phase::Associating && event == Event::UdpBound),
        spec_step(phase, event).1 == Action::SendReply(Reply::HostUnreachable) ==> phase
            == Phase::Connecting && event == Event::ConnectFinished(ConnectOutcome::Unreachable)
            && spec_step(phase, event).0 == Phase::Failed,
        spec_step(phase, event).1 == Action::SendReply(Reply::TtlExpired) ==> phase
            == Phase::Connecting && event == Event::ConnectFinished(ConnectOutcome::TimedOut)
            && spec_step(phase, event).0 == Phase::Failed,
        spec_step(phase, event).1 == Action::SendReply(Reply::CommandNotSupported) ==> phase
            == Phase::Authenticated && spec_step(phase, event).0 == Phase::Closed,
{
}

/// An action that reads, records or rewrites the client's first bytes.
pub open spec fn spec_is_sniffing(action: Action) -> bool {
    ||| action == Action::ReadInitial
    ||| action == Action::ReadMore
    ||| action == Action::RememberAndForward
    ||| action == Action::RewriteAndForward
}

/// How often a run of events has the client's first bytes read, recorded or
/// rewritten.
pub open spec fn spec_sniff_count(phase: Phase, events: Seq<Event>) -> nat
    decreases events.len(),
{
    if events.len() == 0 {
        0
    } else {
        let (next, action) = spec_step(phase, events[0]);
        let rest = spec_sniff_count(next, events.drop_first());
        if spec_is_sniffing(action) {
            rest + 1
        } else {
            rest
        }
    }
}

/// Once a connection is relayed, whatever is reported, its bytes are not
/// looked at: they reach the target as the client sent them.
pub proof fn lemma_relayed_bytes_are_not_sniffed(phase: Phase, events: Seq<Event>)
    requires
        spec_rank(phase) >= spec_rank(Phase::Relaying),
    ensures
        spec_sniff_count(phase, events) == 0,
    decreases events.len(),
{
    if events.len() > 0 {
        lemma_relayed_bytes_are_not_sniffed(spec_step(phase, events[0]).0, events.drop_first());
    }
}

/// A connection whose destination is found among those known not to speak
/// HTTP is relayed without its bytes being looked at, whatever is reported
/// afterwards.
pub proof fn lemma_hit_is_never_sniffed(events: Seq<Event>)
    ensures
        spec_step(Phase::CheckingCache, Event::CacheHit) == (Phase::Relaying, Action::Relay),
        spec_sniff_count(Phase::CheckingCache, seq![Event::CacheHit] + events) == 0,
{
    let run = seq![Event::CacheHit] + events;
    assert(run[0] == Event::CacheHit);
    assert(run.drop_first() =~= events);
    lemma_relayed_bytes_are_not_sniffed(Phase::Relaying, events);
}

} // verus!
