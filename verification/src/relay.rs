//! The relay engine: one pump per direction, and the coordinator that ends
//! both as soon as one of them is done.
//!
//! A pump never reads or writes. It is told what happened (bytes were read,
//! so many bytes were written, a call failed) and answers with what to do
//! next. Whoever owns the descriptors runs that loop.

use crate::error::{IoCause, Side};
use vstd::prelude::*;

verus! {

/// How many bytes one read of a relay loop may return.
pub const READ_LIMIT: usize = 8192;

/// One of the two directions of a relay.
#[derive(Debug, Clone, Copy, PartialEq, Eq, Structural)]
pub enum Direction {
    /// From the socket to the local endpoint.
    Inbound,
    /// From the local endpoint to the socket.
    Outbound,
}

/// How a relay, or one direction of it, ended.
#[derive(Debug, Clone, Copy, PartialEq, Eq, Structural)]
pub enum RelayResult {
    /// One side reached its end of stream.
    Closed { by: Side },
    /// A read from, or a write to, `side` failed.
    IoError { side: Side, cause: IoCause },
    /// A signal that was not held back ended the session.
    Interrupted,
}

impl Direction {
    /// The side this direction reads from.
    pub open spec fn source_spec(self) -> Side {
        match self {
            Direction::Inbound => Side::Remote,
            Direction::Outbound => Side::Local,
        }
    }

    /// The side this direction writes to.
    pub open spec fn sink_spec(self) -> Side {
        match self {
            Direction::Inbound => Side::Local,
            Direction::Outbound => Side::Remote,
        }
    }

    /// The side this direction reads from.
    #[verifier::when_used_as_spec(source_spec)]
    pub fn source(self) -> (side: Side)
        ensures
            side == self.source_spec(),
    {
        match self {
            Direction::Inbound => Side::Remote,
            Direction::Outbound => Side::Local,
        }
    }

    /// The side this direction writes to.
    #[verifier::when_used_as_spec(sink_spec)]
    pub fn sink(self) -> (side: Side)
        ensures
            side == self.sink_spec(),
    {
        match self {
            Direction::Inbound => Side::Local,
            Direction::Outbound => Side::Remote,
        }
    }
}

/// What the owner of the descriptors reports to a pump.
#[derive(Debug, Clone, PartialEq, Eq)]
pub enum PumpEvent {
    /// A read returned these bytes; none at all is the end of the stream.
    Data(Vec<u8>),
    /// A read returned an error.
    ReadFailed,
    /// A write took this many of the bytes it was offered.
    Written(usize),
    /// A write returned an error.
    WriteFailed,
}

/// A pump event as a mathematical value.
pub enum PumpEventView {
    Data(Seq<u8>),
    ReadFailed,
    Written(nat),
    WriteFailed,
}

impl View for PumpEvent {
    type V = PumpEventView;

    open spec fn view(&self) -> PumpEventView {
        match self {
            PumpEvent::Data(bytes) => PumpEventView::Data(bytes@),
            PumpEvent::ReadFailed => PumpEventView::ReadFailed,
            PumpEvent::Written(count) => PumpEventView::Written(*count as nat),
            PumpEvent::WriteFailed => PumpEventView::WriteFailed,
        }
    }
}

/// What a pump asks for next.
#[derive(Debug, Clone, Copy, PartialEq, Eq, Structural)]
pub enum PumpAction {
    /// Read at most `limit` bytes from the source and report them.
    Read { limit: usize },
    /// Write the unwritten bytes to the sink and report how many were taken.
    Write,
    /// This direction is over.
    Stop(RelayResult),
}

/// The state of a pump as a mathematical value.
pub struct PumpView {
    pub direction: Direction,
    /// The bytes that were read and not yet written, oldest first.
    pub pending: Seq<u8>,
    /// The source has ended while bytes were still pending.
    pub draining: bool,
    pub outcome: Option<RelayResult>,
}

/// The pump of one direction.
///
/// It holds the bytes that were read until the sink has taken every one of
/// them, however many writes that needs.
#[derive(Debug)]
pub struct Pump {
    direction: Direction,
    pending: Vec<u8>,
    draining: bool,
    outcome: Option<RelayResult>,
}

impl View for Pump {
    type V = PumpView;

    closed spec fn view(&self) -> PumpView {
        PumpView {
            direction: self.direction,
            pending: self.pending@,
            draining: self.draining,
            outcome: self.outcome,
        }
    }
}

/// A pump that has seen nothing yet.
pub open spec fn pump_start(direction: Direction) -> PumpView {
    PumpView { direction, pending: Seq::empty(), draining: false, outcome: None }
}

/// The state of a pump after an event.
///
/// A stopped pump stays as it is. Bytes that were read join the pending ones;
/// an empty read ends the direction once nothing is pending. A write that
/// took `n` bytes removes the first `n` pending ones; one that took nothing
/// is a failure on the sink's side. A failed call ends the direction at once.
pub open spec fn pump_step(s: PumpView, e: PumpEventView) -> PumpView {
    if s.outcome is Some {
        s
    } else {
        match e {
            PumpEventView::Data(bytes) => if bytes.len() > 0 {
                PumpView { pending: s.pending + bytes, ..s }
            } else if s.pending.len() > 0 {
                PumpView { draining: true, ..s }
            } else {
                PumpView { outcome: Some(RelayResult::Closed { by: s.direction.source_spec() }), ..s }
            },
            PumpEventView::ReadFailed => PumpView {
                outcome: Some(
                    RelayResult::IoError {
                        side: s.direction.source_spec(),
                        cause: IoCause::ReadFailed,
                    },
                ),
                ..s
            },
            PumpEventView::Written(n) => if s.pending.len() == 0 {
                s
            } else if n == 0 {
                PumpView {
                    outcome: Some(
                        RelayResult::IoError {
                            side: s.direction.sink_spec(),
                            cause: IoCause::WriteStalled,
                        },
                    ),
                    ..s
                }
            } else if n < s.pending.len() {
                PumpView { pending: s.pending.skip(n as int), ..s }
            } else if s.draining {
                PumpView {
                    pending: Seq::empty(),
                    outcome: Some(RelayResult::Closed { by: s.direction.source_spec() }),
                    ..s
                }
            } else {
                PumpView { pending: Seq::empty(), ..s }
            },
            PumpEventView::WriteFailed => PumpView {
                outcome: Some(
                    RelayResult::IoError {
                        side: s.direction.sink_spec(),
                        cause: IoCause::WriteFailed,
                    },
                ),
                ..s
            },
        }
    }
}

/// What a pump in state `s` asks for: to stop once it has an outcome, to
/// write while bytes are pending, to read up to the read limit otherwise.
pub open spec fn pump_action(s: PumpView) -> PumpAction {
    match s.outcome {
        Some(result) => PumpAction::Stop(result),
        None => if s.pending.len() > 0 {
            PumpAction::Write
        } else {
            PumpAction::Read { limit: READ_LIMIT }
        },
    }
}

impl Pump {
    /// A pump for `direction` that has seen nothing yet.
    pub fn new(direction: Direction) -> (pump: Pump)
        ensures
            pump@ == pump_start(direction),
            nothing_left_when_closed(pump@),
    {
        Pump { direction, pending: Vec::new(), draining: false, outcome: None }
    }

    /// What the pump asks for in its present state.
    pub fn action(&self) -> (action: PumpAction)
        ensures
            action == pump_action(self@),
    {
        match self.outcome {
            Some(result) => PumpAction::Stop(result),
            None => if self.pending.len() > 0 {
                PumpAction::Write
            } else {
                PumpAction::Read { limit: READ_LIMIT }
            },
        }
    }

    /// The bytes to offer to the sink: all that were read and not yet written.
    pub fn unwritten(&self) -> (bytes: &[u8])
        ensures
            bytes@ == self@.pending,
    {
        self.pending.as_slice()
    }

    /// Takes note of an event and says what to do next.
    pub fn step(&mut self, event: PumpEvent) -> (action: PumpAction)
        ensures
            final(self)@ == pump_step(old(self)@, event@),
            action == pump_action(final(self)@),
            nothing_left_when_closed(old(self)@) ==> nothing_left_when_closed(final(self)@),
    {
        if self.outcome.is_none() {
            let pending = self.pending.len();
            match event {
                PumpEvent::Data(bytes) => {
                    let mut bytes = bytes;
                    if bytes.len() > 0 {
                        self.pending.append(&mut bytes);
                    } else if pending > 0 {
                        self.draining = true;
                    } else {
                        self.outcome = Some(RelayResult::Closed { by: self.direction.source() });
                    }
                },
                PumpEvent::ReadFailed => {
                    self.outcome = Some(
                        RelayResult::IoError {
                            side: self.direction.source(),
                            cause: IoCause::ReadFailed,
                        },
                    );
                },
                PumpEvent::Written(count) => {
                    if pending == 0 {
                    } else if count == 0 {
                        self.outcome = Some(
                            RelayResult::IoError {
                                side: self.direction.sink(),
                                cause: IoCause::WriteStalled,
                            },
                        );
                    } else if count < pending {
                        let rest = self.pending.split_off(count);
                        self.pending = rest;
                    } else {
                        self.pending.clear();
                        if self.draining {
                            self.outcome = Some(
                                RelayResult::Closed { by: self.direction.source() },
                            );
                        }
                    }
                },
                PumpEvent::WriteFailed => {
                    self.outcome = Some(
                        RelayResult::IoError {
                            side: self.direction.sink(),
                            cause: IoCause::WriteFailed,
                        },
                    );
                },
            }
        }
        self.action()
    }
}

/// The bytes that the step from `s` on `e` takes in from the source.
pub open spec fn taken_in(s: PumpView, e: PumpEventView) -> Seq<u8> {
    match e {
        PumpEventView::Data(bytes) => if s.outcome is None {
            bytes
        } else {
            Seq::empty()
        },
        _ => Seq::empty(),
    }
}

/// The bytes that the step from `s` on `e` learns to have reached the sink.
pub open spec fn handed_on(s: PumpView, e: PumpEventView) -> Seq<u8> {
    match e {
        PumpEventView::Written(n) => if s.outcome is None && n > 0 {
            if n < s.pending.len() {
                s.pending.take(n as int)
            } else {
                s.pending
            }
        } else {
            Seq::empty()
        },
        _ => Seq::empty(),
    }
}

/// The state of a pump after a run of events, first event first.
pub open spec fn pump_run(s: PumpView, events: Seq<PumpEventView>) -> PumpView
    decreases events.len(),
{
    if events.len() == 0 {
        s
    } else {
        pump_run(pump_step(s, events[0]), events.drop_first())
    }
}

/// All bytes taken in from the source during a run, in the order read.
pub open spec fn bytes_read(s: PumpView, events: Seq<PumpEventView>) -> Seq<u8>
    decreases events.len(),
{
    if events.len() == 0 {
        Seq::empty()
    } else {
        taken_in(s, events[0]) + bytes_read(pump_step(s, events[0]), events.drop_first())
    }
}

/// All bytes that reached the sink during a run, in the order written.
pub open spec fn bytes_written(s: PumpView, events: Seq<PumpEventView>) -> Seq<u8>
    decreases events.len(),
{
    if events.len() == 0 {
        Seq::empty()
    } else {
        handed_on(s, events[0]) + bytes_written(pump_step(s, events[0]), events.drop_first())
    }
}

/// A pump whose source closed cleanly has nothing left to write.
pub open spec fn nothing_left_when_closed(s: PumpView) -> bool {
    s.outcome matches Some(RelayResult::Closed { .. }) ==> s.pending.len() == 0
}

/// Over any run of events, from any state, no byte is lost, repeated or
/// reordered: what was pending at the start followed by what was read is
/// what was written followed by what is pending at the end.
pub proof fn pump_loses_nothing(s: PumpView, events: Seq<PumpEventView>)
    ensures
        bytes_written(s, events) + pump_run(s, events).pending == s.pending + bytes_read(
            s,
            events,
        ),
        nothing_left_when_closed(s) ==> nothing_left_when_closed(pump_run(s, events)),
    decreases events.len(),
{
    if events.len() > 0 {
        let e = events[0];
        let next = pump_step(s, e);
        let rest = events.drop_first();
        pump_loses_nothing(next, rest);
        let written = bytes_written(next, rest);
        let left = pump_run(next, rest).pending;
        assert((handed_on(s, e) + written) + left =~= handed_on(s, e) + (written + left));
    }
}

/// A pump that starts empty writes the bytes it reads, in the order it read
/// them, however short the single writes are. Whenever it asks for the next
/// read, and when it stops because its source closed, every byte that was
/// read has been written; at any other moment the bytes not yet written are
/// the ones still pending.
pub proof fn pump_delivers_in_order(direction: Direction, events: Seq<PumpEventView>)
    ensures
        ({
            let start = pump_start(direction);
            let end = pump_run(start, events);
            let read = bytes_read(start, events);
            let written = bytes_written(start, events);
            &&& written + end.pending == read
            &&& pump_action(end) is Read ==> written == read
            &&& pump_action(end) matches PumpAction::Stop(RelayResult::Closed { by })
                ==> written == read && by == direction.source_spec()
        }),
{
    let start = pump_start(direction);
    pump_loses_nothing(start, events);
    pump_keeps_its_direction(start, events);
}

/// A run does not change the direction of a pump, a stopped pump stays as it
/// is, and a source closes only on its own side.
pub proof fn pump_keeps_its_direction(s: PumpView, events: Seq<PumpEventView>)
    ensures
        pump_run(s, events).direction == s.direction,
        s.outcome is Some ==> pump_run(s, events) == s,
        s.outcome is None ==> (pump_run(s, events).outcome matches Some(
            RelayResult::Closed { by },
        ) ==> by == s.direction.source_spec()),
    decreases events.len(),
{
    if events.len() > 0 {
        pump_keeps_its_direction(pump_step(s, events[0]), events.drop_first());
    }
}

/// What the two directions and the signal handler report to the coordinator.
#[derive(Debug, Clone, Copy, PartialEq, Eq, Structural)]
pub enum RelayEvent {
    /// The pump of a direction has stopped with this result.
    Stopped(Direction, RelayResult),
    /// An interactive signal arrived.
    Signal,
}

/// What the coordinator asks for next.
#[derive(Debug, Clone, Copy, PartialEq, Eq, Structural)]
pub enum RelayAction {
    /// Keep both directions running.
    Continue,
    /// Shut down both halves of the socket and the local descriptors, so
    /// that a direction parked in a read wakes up and stops.
    Cancel,
    /// Both directions have stopped: this is the result of the relay.
    Finish(RelayResult),
}

/// The state of the coordinator as a mathematical value.
pub struct RelayView {
    /// Interactive signals are held back.
    pub blocked: bool,
    pub inbound_stopped: bool,
    pub outbound_stopped: bool,
    /// How the relay ends, once that is decided.
    pub result: Option<RelayResult>,
}

/// The coordinator of the two directions of one relay.
///
/// The relay is over as soon as one direction stops or a signal that is not
/// held back arrives. That first cause is the result; the other direction is
/// cancelled and what it reports while it winds down changes nothing.
#[derive(Debug)]
pub struct Relay {
    blocked: bool,
    inbound_stopped: bool,
    outbound_stopped: bool,
    result: Option<RelayResult>,
}

impl View for Relay {
    type V = RelayView;

    closed spec fn view(&self) -> RelayView {
        RelayView {
            blocked: self.blocked,
            inbound_stopped: self.inbound_stopped,
            outbound_stopped: self.outbound_stopped,
            result: self.result,
        }
    }
}

/// A relay with both directions running.
pub open spec fn relay_start(blocked: bool) -> RelayView {
    RelayView { blocked, inbound_stopped: false, outbound_stopped: false, result: None }
}

/// The state of the coordinator after an event.
pub open spec fn relay_step(s: RelayView, e: RelayEvent) -> RelayView {
    match e {
        RelayEvent::Stopped(direction, result) => RelayView {
            inbound_stopped: s.inbound_stopped || direction == Direction::Inbound,
            outbound_stopped: s.outbound_stopped || direction == Direction::Outbound,
            result: if s.result is None {
                Some(result)
            } else {
                s.result
            },
            ..s
        },
        RelayEvent::Signal => if s.blocked || s.result is Some {
            s
        } else {
            RelayView { result: Some(RelayResult::Interrupted), ..s }
        },
    }
}

/// What the coordinator asks for in state `s`.
pub open spec fn relay_action(s: RelayView) -> RelayAction {
    match s.result {
        None => RelayAction::Continue,
        Some(result) => if s.inbound_stopped && s.outbound_stopped {
            RelayAction::Finish(result)
        } else {
            RelayAction::Cancel
        },
    }
}

impl Relay {
    /// A relay with both directions running; `blocked` says whether
    /// interactive signals are held back.
    pub fn new(blocked: bool) -> (relay: Relay)
        ensures
            relay@ == relay_start(blocked),
    {
        Relay { blocked, inbound_stopped: false, outbound_stopped: false, result: None }
    }

    /// What the coordinator asks for in its present state.
    pub fn action(&self) -> (action: RelayAction)
        ensures
            action == relay_action(self@),
    {
        match self.result {
            None => RelayAction::Continue,
            Some(result) => if self.inbound_stopped && self.outbound_stopped {
                RelayAction::Finish(result)
            } else {
                RelayAction::Cancel
            },
        }
    }

    /// How the relay ends, once that is decided.
    pub fn result(&self) -> (result: Option<RelayResult>)
        ensures
            result == self@.result,
    {
        self.result
    }

    /// Takes note of an event and says what to do next.
    pub fn step(&mut self, event: RelayEvent) -> (action: RelayAction)
        ensures
            final(self)@ == relay_step(old(self)@, event),
            action == relay_action(final(self)@),
    {
        match event {
            RelayEvent::Stopped(direction, result) => {
                match direction {
                    Direction::Inbound => {
                        self.inbound_stopped = true;
                    },
                    Direction::Outbound => {
                        self.outbound_stopped = true;
                    },
                }
                if self.result.is_none() {
                    self.result = Some(result);
                }
            },
            RelayEvent::Signal => {
                if !self.blocked && self.result.is_none() {
                    self.result = Some(RelayResult::Interrupted);
                }
            },
        }
        self.action()
    }
}

/// The state of the coordinator after a run of events, first event first.
pub open spec fn relay_run(s: RelayView, events: Seq<RelayEvent>) -> RelayView
    decreases events.len(),
{
    if events.len() == 0 {
        s
    } else {
        relay_run(relay_step(s, events[0]), events.drop_first())
    }
}

/// Once the result of a relay is decided, nothing that follows changes it,
/// and a direction that has stopped stays stopped.
pub proof fn first_result_stands(s: RelayView, events: Seq<RelayEvent>)
    ensures
        s.result is Some ==> relay_run(s, events).result == s.result,
        s.inbound_stopped ==> relay_run(s, events).inbound_stopped,
        s.outbound_stopped ==> relay_run(s, events).outbound_stopped,
        relay_run(s, events).blocked == s.blocked,
    decreases events.len(),
{
    if events.len() > 0 {
        first_result_stands(relay_step(s, events[0]), events.drop_first());
    }
}

/// The relay ends on the first direction that stops: when a direction
/// reports `result` to a relay that is still undecided, that is the result
/// of the whole relay, the other direction is cancelled rather than waited
/// for, and the relay finishes exactly when the other direction has stopped
/// too, whatever else is reported in between.
pub proof fn relay_ends_on_first_stop(
    s: RelayView,
    direction: Direction,
    result: RelayResult,
    later: Seq<RelayEvent>,
)
    requires
        s.result is None,
        !s.inbound_stopped,
        !s.outbound_stopped,
    ensures
        relay_action(s) == RelayAction::Continue,
        relay_action(relay_step(s, RelayEvent::Stopped(direction, result)))
            == RelayAction::Cancel,
        ({
            let end = relay_run(relay_step(s, RelayEvent::Stopped(direction, result)), later);
            &&& end.result == Some(result)
            &&& relay_action(end) == if end.inbound_stopped && end.outbound_stopped {
                RelayAction::Finish(result)
            } else {
                RelayAction::Cancel
            }
        }),
{
    first_result_stands(relay_step(s, RelayEvent::Stopped(direction, result)), later);
}

/// While signals are held back, a signal changes nothing; otherwise the
/// first signal to reach an undecided relay interrupts it.
pub proof fn signals_follow_the_policy(s: RelayView)
    ensures
        s.blocked ==> relay_step(s, RelayEvent::Signal) == s,
        !s.blocked && s.result is None ==> relay_step(s, RelayEvent::Signal).result == Some(
            RelayResult::Interrupted,
        ),
{
}

} // verus!
