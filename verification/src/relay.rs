//! The decisions of the full-duplex relay between the client and the target.
//!
//! The relay reads from either stream and writes what it read to the other.
//! The reading and writing are the caller's: after each read and each write
//! it reports the outcome here, and is told what to do next.

use vstd::prelude::*;

verus! {

/// The size in bytes of the buffer that each direction reads into.
pub const RELAY_BUFFER_SIZE: usize = 5120;

/// One of the two streams of a connection.
#[derive(Clone, Copy, Debug, PartialEq, Eq, Structural)]
pub enum Side {
    Client,
    Target,
}

/// How a read or a write failed, as far as the relay tells failures apart.
#[derive(Clone, Copy, Debug, PartialEq, Eq, Structural)]
pub enum IoFailure {
    ConnectionReset,
    BrokenPipe,
    Other,
}

/// What a read returned.
#[derive(Clone, Copy, Debug, PartialEq, Eq, Structural)]
pub enum ReadOutcome {
    /// This many bytes were read; none means that the stream has ended.
    Data(usize),
    Failed(IoFailure),
}

/// What a write of all the bytes read returned.
#[derive(Clone, Copy, Debug, PartialEq, Eq, Structural)]
pub enum WriteOutcome {
    Done,
    Failed(IoFailure),
}

/// What the caller does next.
#[derive(Clone, Copy, Debug, PartialEq, Eq, Structural)]
pub enum RelayAction {
    /// Write the first `len` bytes just read to the stream `to`.
    Forward { to: Side, len: usize },
    /// Shut down the write side of the stream.
    ShutdownWrite(Side),
    /// Go on reading from the streams whose direction is open.
    Continue,
    /// Give up the connection: the failure is fatal.
    Abort,
}

/// The state of a relay: which directions still run, and how many bytes
/// each has carried.
#[derive(Clone, Copy, Debug, PartialEq, Eq, Structural)]
pub struct RelayState {
    /// The direction from the client to the target still runs.
    pub client_open: bool,
    /// The direction from the target to the client still runs.
    pub target_open: bool,
    /// Bytes read from the client.
    pub client_to_target: u64,
    /// Bytes read from the target.
    pub target_to_client: u64,
    /// A fatal failure has ended the relay.
    pub aborted: bool,
}

/// The stream opposite to `side`.
pub open spec fn spec_peer(side: Side) -> Side {
    match side {
        Side::Client => Side::Target,
        Side::Target => Side::Client,
    }
}

/// A failure that ends one direction only.
pub open spec fn spec_is_graceful(failure: IoFailure) -> bool {
    failure == IoFailure::ConnectionReset || failure == IoFailure::BrokenPipe
}

/// `count` and `n` more, held at the largest `u64`.
pub open spec fn spec_counted(count: u64, n: usize) -> u64 {
    if count + n > u64::MAX {
        u64::MAX
    } else {
        (count + n) as u64
    }
}

impl RelayState {
    /// The direction that reads from `from` still runs.
    pub open spec fn spec_is_open(self, from: Side) -> bool {
        match from {
            Side::Client => self.client_open,
            Side::Target => self.target_open,
        }
    }

    /// The relay has ended: by a fatal failure, or because both directions
    /// have stopped.
    pub open spec fn spec_is_finished(self) -> bool {
        self.aborted || (!self.client_open && !self.target_open)
    }

    /// This state with the direction that reads from `from` stopped.
    pub open spec fn spec_closed(self, from: Side) -> RelayState {
        match from {
            Side::Client => RelayState { client_open: false, ..self },
            Side::Target => RelayState { target_open: false, ..self },
        }
    }

    /// This state with `n` more bytes read from `from`.
    pub open spec fn spec_credited(self, from: Side, n: usize) -> RelayState {
        match from {
            Side::Client => RelayState {
                client_to_target: spec_counted(self.client_to_target, n),
                ..self
            },
            Side::Target => RelayState {
                target_to_client: spec_counted(self.target_to_client, n),
                ..self
            },
        }
    }

    /// The state and the action that follow a read from `from`.
    ///
    /// Bytes are counted and forwarded to the peer. The end of the stream, a
    /// reset and a broken pipe stop the direction, and the peer's write side
    /// is shut down. Any other failure is fatal.
    pub open spec fn spec_on_read(self, from: Side, outcome: ReadOutcome) -> (
        RelayState,
        RelayAction,
    ) {
        match outcome {
            ReadOutcome::Data(n) => if n > 0 {
                (self.spec_credited(from, n), RelayAction::Forward { to: spec_peer(from), len: n })
            } else {
                (self.spec_closed(from), RelayAction::ShutdownWrite(spec_peer(from)))
            },
            ReadOutcome::Failed(failure) => if spec_is_graceful(failure) {
                (self.spec_closed(from), RelayAction::ShutdownWrite(spec_peer(from)))
            } else {
                (RelayState { aborted: true, ..self }, RelayAction::Abort)
            },
        }
    }

    /// The state and the action that follow a write to `to`.
    ///
    /// A reset and a broken pipe stop the direction that writes to `to`. Any
    /// other failure is fatal.
    pub open spec fn spec_on_write(self, to: Side, outcome: WriteOutcome) -> (
        RelayState,
        RelayAction,
    ) {
        match outcome {
            WriteOutcome::Done => (self, RelayAction::Continue),
            WriteOutcome::Failed(failure) => if spec_is_graceful(failure) {
                (self.spec_closed(spec_peer(to)), RelayAction::Continue)
            } else {
                (RelayState { aborted: true, ..self }, RelayAction::Abort)
            },
        }
    }

    /// A relay at its start: both directions run, nothing has been carried.
    pub fn new() -> (state: RelayState)
        ensures
            state == (RelayState {
                client_open: true,
                target_open: true,
                client_to_target: 0,
                target_to_client: 0,
                aborted: false,
            }),
            !state.spec_is_finished(),
    {
        RelayState {
            client_open: true,
            target_open: true,
            client_to_target: 0,
            target_to_client: 0,
            aborted: false,
        }
    }

    /// Whether the caller is to go on reading from `from`.
    pub fn wants_read(&self, from: Side) -> (r: bool)
        ensures
            r == (!self.aborted && self.spec_is_open(from)),
    {
        !self.aborted && match from {
            Side::Client => self.client_open,
            Side::Target => self.target_open,
        }
    }

    /// Whether the relay has ended.
    pub fn is_finished(&self) -> (r: bool)
        ensures
            r == self.spec_is_finished(),
    {
        self.aborted || (!self.client_open && !self.target_open)
    }

    /// The numbers of bytes carried from the client to the target, and from
    /// the target to the client.
    pub fn byte_counts(&self) -> (r: (u64, u64))
        ensures
            r == (self.client_to_target, self.target_to_client),
    {
        (self.client_to_target, self.target_to_client)
    }

    /// Takes the outcome of a read from `from`.
    pub fn on_read(&mut self, from: Side, outcome: ReadOutcome) -> (action: RelayAction)
        ensures
            (*final(self), action) == old(self).spec_on_read(from, outcome),
            action matches RelayAction::Forward { to, len } ==> to == spec_peer(from)
                && outcome == ReadOutcome::Data(len) && len > 0,
            final(self).client_to_target >= old(self).client_to_target,
            final(self).target_to_client >= old(self).target_to_client,
            !old(self).client_open ==> !final(self).client_open,
            !old(self).target_open ==> !final(self).target_open,
            old(self).spec_is_finished() ==> final(self).spec_is_finished(),
            action == RelayAction::Abort ==> final(self).aborted,
    {
        match outcome {
            ReadOutcome::Data(n) => {
                if n > 0 {
                    self.credit(from, n);
                    RelayAction::Forward { to: peer(from), len: n }
                } else {
                    self.close(from);
                    RelayAction::ShutdownWrite(peer(from))
                }
            },
            ReadOutcome::Failed(failure) => {
                if is_graceful(failure) {
                    self.close(from);
                    RelayAction::ShutdownWrite(peer(from))
                } else {
                    self.aborted = true;
                    RelayAction::Abort
                }
            },
        }
    }

    /// Takes the outcome of a write to `to`.
    pub fn on_write(&mut self, to: Side, outcome: WriteOutcome) -> (action: RelayAction)
        ensures
            (*final(self), action) == old(self).spec_on_write(to, outcome),
            action == RelayAction::Continue || action == RelayAction::Abort,
            action == RelayAction::Abort ==> final(self).aborted,
            final(self).client_to_target == old(self).client_to_target,
            final(self).target_to_client == old(self).target_to_client,
            !old(self).client_open ==> !final(self).client_open,
            !old(self).target_open ==> !final(self).target_open,
            old(self).spec_is_finished() ==> final(self).spec_is_finished(),
    {
        match outcome {
            WriteOutcome::Done => RelayAction::Continue,
            WriteOutcome::Failed(failure) => {
                if is_graceful(failure) {
                    self.close(peer(to));
                    RelayAction::Continue
                } else {
                    self.aborted = true;
                    RelayAction::Abort
                }
            },
        }
    }

    /// Takes an event: the outcome of a read or of a write.
    pub fn apply(&mut self, event: RelayEvent) -> (action: RelayAction)
        ensures
            (*final(self), action) == spec_apply(*old(self), event),
    {
        match event {
            RelayEvent::Read { from, read } => self.on_read(from, read),
            RelayEvent::Written { to, written } => self.on_write(to, written),
        }
    }

    fn close(&mut self, from: Side)
        ensures
            *final(self) == old(self).spec_closed(from),
    {
        match from {
            Side::Client => {
                self.client_open = false;
            },
            Side::Target => {
                self.target_open = false;
            },
        }
    }

    fn credit(&mut self, from: Side, n: usize)
        ensures
            *final(self) == old(self).spec_credited(from, n),
    {
        match from {
            Side::Client => {
                self.client_to_target = counted(self.client_to_target, n);
            },
            Side::Target => {
                self.target_to_client = counted(self.target_to_client, n);
            },
        }
    }
}

/// The stream opposite to `side`.
pub fn peer(side: Side) -> (r: Side)
    ensures
        r == spec_peer(side),
{
    match side {
        Side::Client => Side::Target,
        Side::Target => Side::Client,
    }
}

/// Whether a failure ends one direction only: a reset and a broken pipe do.
pub fn is_graceful(failure: IoFailure) -> (r: bool)
    ensures
        r == spec_is_graceful(failure),
{
    match failure {
        IoFailure::ConnectionReset => true,
        IoFailure::BrokenPipe => true,
        IoFailure::Other => false,
    }
}

fn counted(count: u64, n: usize) -> (r: u64)
    ensures
        r == spec_counted(count, n),
{
    let n64: u64 = n as u64;
    if n64 > u64::MAX - count {
        u64::MAX
    } else {
        count + n64
    }
}

/// What the caller reports to a relay.
#[derive(Clone, Copy, Debug, PartialEq, Eq, Structural)]
pub enum RelayEvent {
    Read { from: Side, read: ReadOutcome },
    Written { to: Side, written: WriteOutcome },
}

/// The state and the action that follow an event.
pub open spec fn spec_apply(state: RelayState, event: RelayEvent) -> (RelayState, RelayAction) {
    match event {
        RelayEvent::Read { from, read } => state.spec_on_read(from, read),
        RelayEvent::Written { to, written } => state.spec_on_write(to, written),
    }
}

/// The state that a run of events leads to.
pub open spec fn spec_run(state: RelayState, events: Seq<RelayEvent>) -> RelayState
    decreases events.len(),
{
    if events.len() == 0 {
        state
    } else {
        spec_run(spec_apply(state, events[0]).0, events.drop_first())
    }
}

/// The number of bytes that an event says were read from `from`.
pub open spec fn spec_read_len(event: RelayEvent, from: Side) -> nat {
    match event {
        RelayEvent::Read { from: side, read: ReadOutcome::Data(n) } => if side == from {
            n as nat
        } else {
            0
        },
        _ => 0,
    }
}

/// The number of bytes that an action has written to `to`.
pub open spec fn spec_forward_len(action: RelayAction, to: Side) -> nat {
    match action {
        RelayAction::Forward { to: side, len } => if side == to {
            len as nat
        } else {
            0
        },
        _ => 0,
    }
}

/// The number of bytes that a run of events says were read from `from`.
pub open spec fn spec_read_total(events: Seq<RelayEvent>, from: Side) -> nat
    decreases events.len(),
{
    if events.len() == 0 {
        0
    } else {
        spec_read_len(events[0], from) + spec_read_total(events.drop_first(), from)
    }
}

/// The number of bytes that the actions of a run have written to `to`.
pub open spec fn spec_forward_total(state: RelayState, events: Seq<RelayEvent>, to: Side) -> nat
    decreases events.len(),
{
    if events.len() == 0 {
        0
    } else {
        let (next, action) = spec_apply(state, events[0]);
        spec_forward_len(action, to) + spec_forward_total(next, events.drop_first(), to)
    }
}

/// A count of bytes, held at the largest `u64`.
pub open spec fn spec_saturated(total: int) -> u64 {
    if total > u64::MAX {
        u64::MAX
    } else {
        total as u64
    }
}

/// Whatever is reported, the relay has written to each stream as many bytes
/// as were read from the other: none is dropped and none is added.
pub proof fn lemma_forwards_what_was_read(state: RelayState, events: Seq<RelayEvent>, from: Side)
    ensures
        spec_forward_total(state, events, spec_peer(from)) == spec_read_total(events, from),
    decreases events.len(),
{
    if events.len() > 0 {
        lemma_forwards_what_was_read(spec_apply(state, events[0]).0, events.drop_first(), from);
    }
}

/// Whatever is reported, each counter has grown by the number of bytes read
/// from its side, up to the largest `u64`.
pub proof fn lemma_run_counts_what_was_read(state: RelayState, events: Seq<RelayEvent>)
    ensures
        spec_run(state, events).client_to_target == spec_saturated(
            state.client_to_target + spec_read_total(events, Side::Client),
        ),
        spec_run(state, events).target_to_client == spec_saturated(
            state.target_to_client + spec_read_total(events, Side::Target),
        ),
    decreases events.len(),
{
    if events.len() > 0 {
        lemma_run_counts_what_was_read(spec_apply(state, events[0]).0, events.drop_first());
    }
}

/// Whatever is reported, a direction that has stopped stays stopped, and a
/// relay that has ended stays ended.
pub proof fn lemma_run_keeps_stopped(state: RelayState, events: Seq<RelayEvent>)
    ensures
        !state.client_open ==> !spec_run(state, events).client_open,
        !state.target_open ==> !spec_run(state, events).target_open,
        state.aborted ==> spec_run(state, events).aborted,
        state.spec_is_finished() ==> spec_run(state, events).spec_is_finished(),
    decreases events.len(),
{
    if events.len() > 0 {
        lemma_run_keeps_stopped(spec_apply(state, events[0]).0, events.drop_first());
    }
}

} // verus!
