//! The stream bridge: the copy loop, its error classification and the
//! reconnect cycle, as a state machine.
//!
//! The caller performs [`BridgeAction`]s and reports [`BridgeEvent`]s. The
//! bridge answers each event with a [`Reaction`]: a line for the diagnostic
//! stream, bytes for the data sink, or nothing.

use vstd::prelude::*;
use crate::failure::{Disposition, Failure};
use crate::status::{
    connected_line, connected_text, lost_line, lost_text, reconnected_line, reconnected_text,
};

verus! {

/// The fixed communication rate of the bridge.
pub const DEFAULT_BAUD_RATE: u32 = 9600;

/// The capacity, in bytes, of the buffers in front of the device and of the
/// data sink.
pub const BUFFER_CAPACITY: usize = 1048576;

/// The exit status of a process that a fatal failure ended.
pub const FAILURE_STATUS: i32 = 1;

/// The parameters with which the device is opened, and opened again after
/// every outage.
#[derive(Clone, Debug, PartialEq, Eq)]
pub struct PortSettings {
    /// The device path, exactly as it was given or chosen.
    pub path: String,
    /// The communication rate.
    pub baud_rate: u32,
    /// The longest wait of one read, in milliseconds; `None` is an unbounded
    /// wait.
    pub read_timeout_ms: Option<u64>,
}

/// Where the bridge stands.
#[derive(Clone, Debug, PartialEq, Eq)]
pub enum BridgeState {
    /// No handle exists yet; the first open is due.
    Opening,
    /// A handle exists and bytes are being copied.
    Connected,
    /// The device is gone: no handle exists and the wait for its path is on.
    WaitingForDevice,
    /// The device is back; no handle exists and the next open is due.
    Reopening,
    /// A fatal failure ended the bridge.
    Terminated { failure: Failure },
}

/// What the caller has to do next.
#[derive(Clone, Copy, Debug, PartialEq, Eq, Structural)]
pub enum BridgeAction {
    /// Open the device with the bridge's settings.
    Open,
    /// Read the next chunk of bytes from the device.
    Read,
    /// Release the handle, then wait until the device path exists again.
    CloseAndWait,
    /// Report the failure and end the process.
    Stop,
}

/// What the caller reports back.
#[derive(Clone, Debug, PartialEq, Eq)]
pub enum BridgeEvent {
    /// The device was opened.
    Opened,
    /// A chunk of bytes arrived from the device; an empty chunk is the end of
    /// the stream.
    Data(Vec<u8>),
    /// The wait ended: the device path exists again.
    DeviceAppeared,
    /// An operation failed.
    Failed(Failure),
}

/// What the bridge asks for in answer to an event.
#[derive(Clone, Debug, PartialEq, Eq)]
pub enum Reaction {
    /// Nothing.
    Quiet,
    /// Write this line to the diagnostic stream.
    Announce(String),
    /// Write these bytes to the data sink.
    Forward(Vec<u8>),
}

/// A [`Reaction`] as a mathematical value.
pub enum ReactionView {
    Quiet,
    Announce(Seq<char>),
    Forward(Seq<u8>),
}

impl View for Reaction {
    type V = ReactionView;

    open spec fn view(&self) -> ReactionView {
        match self {
            Reaction::Quiet => ReactionView::Quiet,
            Reaction::Announce(line) => ReactionView::Announce(line@),
            Reaction::Forward(bytes) => ReactionView::Forward(bytes@),
        }
    }
}

/// The action that is due in `state`.
pub open spec fn pending_action(state: BridgeState) -> BridgeAction {
    match state {
        BridgeState::Opening => BridgeAction::Open,
        BridgeState::Connected => BridgeAction::Read,
        BridgeState::WaitingForDevice => BridgeAction::CloseAndWait,
        BridgeState::Reopening => BridgeAction::Open,
        BridgeState::Terminated { .. } => BridgeAction::Stop,
    }
}

/// Whether the caller holds an open handle in `state`.
pub open spec fn holds_handle(state: BridgeState) -> bool {
    state is Connected
}

/// The state that follows `state` on `event`.
///
/// A terminated bridge stays terminated. A fatal failure terminates from every
/// other state; a failure classified as a disconnect starts the wait, and only
/// where a handle exists; a transient failure changes nothing. An event that
/// answers no action of the state changes nothing either.
pub open spec fn next_state(state: BridgeState, event: BridgeEvent) -> BridgeState {
    if state is Terminated {
        state
    } else {
        match event {
            BridgeEvent::Opened => if state is Opening || state is Reopening {
                BridgeState::Connected
            } else {
                state
            },
            BridgeEvent::Data(_) => state,
            BridgeEvent::DeviceAppeared => if state is WaitingForDevice {
                BridgeState::Reopening
            } else {
                state
            },
            BridgeEvent::Failed(failure) => match failure.disposition() {
                Disposition::Ignored => state,
                Disposition::Recoverable => if state is Connected {
                    BridgeState::WaitingForDevice
                } else {
                    state
                },
                Disposition::Fatal => BridgeState::Terminated { failure },
            },
        }
    }
}

/// The bytes that go to the data sink when `event` arrives in `state`: the
/// chunk itself while connected, nothing otherwise.
pub open spec fn forwarded_by(state: BridgeState, event: BridgeEvent) -> Seq<u8> {
    match event {
        BridgeEvent::Data(bytes) => if state is Connected {
            bytes@
        } else {
            Seq::empty()
        },
        _ => Seq::empty(),
    }
}

/// The reaction to `event` in `state`, for a device at `path`.
pub open spec fn reaction_to(state: BridgeState, path: Seq<char>, event: BridgeEvent)
    -> ReactionView {
    match event {
        BridgeEvent::Opened => if state is Opening {
            ReactionView::Announce(connected_text(path))
        } else {
            ReactionView::Quiet
        },
        BridgeEvent::Data(_) => if state is Connected {
            ReactionView::Forward(forwarded_by(state, event))
        } else {
            ReactionView::Quiet
        },
        BridgeEvent::DeviceAppeared => if state is WaitingForDevice {
            ReactionView::Announce(reconnected_text(path))
        } else {
            ReactionView::Quiet
        },
        BridgeEvent::Failed(failure) => if state is Connected && failure.disposition()
            is Recoverable {
            ReactionView::Announce(lost_text(path, failure.cause_text()))
        } else {
            ReactionView::Quiet
        },
    }
}

/// The bytes that `reaction` sends to the data sink.
pub open spec fn sink_bytes(reaction: ReactionView) -> Seq<u8> {
    match reaction {
        ReactionView::Forward(bytes) => bytes,
        _ => Seq::empty(),
    }
}

/// The exit status that `state` calls for: the failure status once
/// terminated, none before.
pub open spec fn exit_status_of(state: BridgeState) -> Option<i32> {
    if state is Terminated {
        Some(FAILURE_STATUS)
    } else {
        None
    }
}

/// Whether `event` is a possible outcome of `action`.
pub open spec fn answers(action: BridgeAction, event: BridgeEvent) -> bool {
    match action {
        BridgeAction::Open => event is Opened || (event matches BridgeEvent::Failed(failure)
            && failure is PortOpen),
        BridgeAction::Read => event is Data || (event matches BridgeEvent::Failed(failure)
            && failure is Io),
        BridgeAction::CloseAndWait => event is DeviceAppeared || (event matches BridgeEvent::Failed(
            failure,
        ) && (failure is WatchSetup || failure is WatchSource || failure is WatchExhausted)),
        BridgeAction::Stop => false,
    }
}

/// The state reached from `state` once `events` have arrived, in order.
pub open spec fn run(state: BridgeState, events: Seq<BridgeEvent>) -> BridgeState
    decreases events.len(),
{
    if events.len() == 0 {
        state
    } else {
        run(next_state(state, events[0]), events.drop_first())
    }
}

/// Whether each of `events`, arriving in order from `state` on, is an outcome
/// of the action that was due when it arrived.
pub open spec fn follows_protocol(state: BridgeState, events: Seq<BridgeEvent>) -> bool
    decreases events.len(),
{
    events.len() == 0 || (answers(pending_action(state), events[0]) && follows_protocol(
        next_state(state, events[0]),
        events.drop_first(),
    ))
}

/// All the bytes that go to the data sink while `events` arrive in order
/// from `state` on.
pub open spec fn forwarded(state: BridgeState, events: Seq<BridgeEvent>) -> Seq<u8>
    decreases events.len(),
{
    if events.len() == 0 {
        Seq::empty()
    } else {
        forwarded_by(state, events[0]) + forwarded(
            next_state(state, events[0]),
            events.drop_first(),
        )
    }
}

/// The bytes that `event` brings from the device.
pub open spec fn chunk_of(event: BridgeEvent) -> Seq<u8> {
    match event {
        BridgeEvent::Data(bytes) => bytes@,
        _ => Seq::empty(),
    }
}

/// All the bytes that `events` bring from the device, in order of arrival.
pub open spec fn payload(events: Seq<BridgeEvent>) -> Seq<u8>
    decreases events.len(),
{
    if events.len() == 0 {
        Seq::empty()
    } else {
        chunk_of(events[0]) + payload(events.drop_first())
    }
}

/// Whether every one of `events` is a chunk of bytes.
pub open spec fn all_data(events: Seq<BridgeEvent>) -> bool {
    forall|i: int| 0 <= i < events.len() ==> (#[trigger] events[i]) is Data
}

/// The events of one outage: the failure that reveals it, the end of the
/// wait, and the open that follows.
pub open spec fn outage(failure: Failure) -> Seq<BridgeEvent> {
    seq![BridgeEvent::Failed(failure), BridgeEvent::DeviceAppeared, BridgeEvent::Opened]
}

/// A [`StreamBridge`] as a mathematical value.
pub struct BridgeModel {
    pub settings: PortSettings,
    pub state: BridgeState,
}

/// The bridge between one serial device and the data sink.
pub struct StreamBridge {
    settings: PortSettings,
    state: BridgeState,
}

impl View for StreamBridge {
    type V = BridgeModel;

    closed spec fn view(&self) -> BridgeModel {
        BridgeModel { settings: self.settings, state: self.state }
    }
}

impl PortSettings {
    /// The settings for the device at `path`: the fixed rate and an unbounded
    /// read wait.
    pub fn new(path: String) -> (settings: PortSettings)
        ensures
            settings.path == path,
            settings.baud_rate == DEFAULT_BAUD_RATE,
            settings.read_timeout_ms is None,
    {
        PortSettings { path, baud_rate: DEFAULT_BAUD_RATE, read_timeout_ms: None }
    }
}

impl StreamBridge {
    /// A bridge for the device that `settings` describes, with the first
    /// open due.
    pub fn new(settings: PortSettings) -> (bridge: StreamBridge)
        ensures
            bridge@.settings == settings,
            bridge@.state == BridgeState::Opening,
    {
        StreamBridge { settings, state: BridgeState::Opening }
    }

    /// The settings for every open of the device.
    pub fn settings(&self) -> (settings: &PortSettings)
        ensures
            *settings == self@.settings,
    {
        &self.settings
    }

    /// Where the bridge stands.
    pub fn state(&self) -> (state: &BridgeState)
        ensures
            *state == self@.state,
    {
        &self.state
    }

    /// What the caller has to do next.
    pub fn next_action(&self) -> (action: BridgeAction)
        ensures
            action == pending_action(self@.state),
    {
        match &self.state {
            BridgeState::Opening => BridgeAction::Open,
            BridgeState::Connected => BridgeAction::Read,
            BridgeState::WaitingForDevice => BridgeAction::CloseAndWait,
            BridgeState::Reopening => BridgeAction::Open,
            BridgeState::Terminated { .. } => BridgeAction::Stop,
        }
    }

    /// The failure that ended the bridge, once it is terminated.
    pub fn failure(&self) -> (failure: Option<&Failure>)
        ensures
            match failure {
                Some(f) => self@.state == (BridgeState::Terminated { failure: *f }),
                None => !(self@.state is Terminated),
            },
    {
        match &self.state {
            BridgeState::Terminated { failure } => Some(failure),
            _ => None,
        }
    }

    /// The status with which the process has to exit, once the bridge is
    /// terminated.
    pub fn exit_status(&self) -> (status: Option<i32>)
        ensures
            status == exit_status_of(self@.state),
    {
        match &self.state {
            BridgeState::Terminated { .. } => Some(FAILURE_STATUS),
            _ => None,
        }
    }

    /// Takes in what the caller reports and moves to the next state.
    ///
    /// The settings never change, so every open uses the same parameters.
    pub fn handle(&mut self, event: BridgeEvent) -> (reaction: Reaction)
        ensures
            final(self)@.settings == old(self)@.settings,
            final(self)@.state == next_state(old(self)@.state, event),
            reaction@ == reaction_to(old(self)@.state, old(self)@.settings.path@, event),
            sink_bytes(reaction@) == forwarded_by(old(self)@.state, event),
    {
        match &self.state {
            BridgeState::Terminated { .. } => {
                return Reaction::Quiet;
            },
            _ => {},
        }
        match event {
            BridgeEvent::Opened => match &self.state {
                BridgeState::Opening => {
                    self.state = BridgeState::Connected;
                    Reaction::Announce(connected_line(self.settings.path.as_str()))
                },
                BridgeState::Reopening => {
                    self.state = BridgeState::Connected;
                    Reaction::Quiet
                },
                _ => Reaction::Quiet,
            },
            BridgeEvent::Data(bytes) => match &self.state {
                BridgeState::Connected => Reaction::Forward(bytes),
                _ => Reaction::Quiet,
            },
            BridgeEvent::DeviceAppeared => match &self.state {
                BridgeState::WaitingForDevice => {
                    self.state = BridgeState::Reopening;
                    Reaction::Announce(reconnected_line(self.settings.path.as_str()))
                },
                _ => Reaction::Quiet,
            },
            BridgeEvent::Failed(failure) => match failure.dispose() {
                Disposition::Ignored => Reaction::Quiet,
                Disposition::Recoverable => match &self.state {
                    BridgeState::Connected => {
                        let reason = failure.cause();
                        self.state = BridgeState::WaitingForDevice;
                        Reaction::Announce(
                            lost_line(self.settings.path.as_str(), reason.as_str()),
                        )
                    },
                    _ => Reaction::Quiet,
                },
                Disposition::Fatal => {
                    self.state = BridgeState::Terminated { failure };
                    Reaction::Quiet
                },
            },
        }
    }
}

/// A failure classified as a disconnect takes a connected bridge into the
/// wait for the device, where the action due is the wait and not the stop;
/// from no state does such a failure terminate the bridge or give it an exit
/// status.
pub proof fn lemma_disconnect_starts_wait(state: BridgeState, failure: Failure)
    requires
        failure.disposition() is Recoverable,
    ensures
        next_state(BridgeState::Connected, BridgeEvent::Failed(failure))
            == BridgeState::WaitingForDevice,
        pending_action(BridgeState::WaitingForDevice) == BridgeAction::CloseAndWait,
        !(state is Terminated) ==> !(next_state(state, BridgeEvent::Failed(failure))
            is Terminated),
        exit_status_of(next_state(state, BridgeEvent::Failed(failure))) == exit_status_of(state),
{
}

/// A transient failure changes nothing: the copy loop goes on.
pub proof fn lemma_transient_is_ignored(state: BridgeState, failure: Failure)
    requires
        failure.disposition() is Ignored,
    ensures
        next_state(state, BridgeEvent::Failed(failure)) == state,
{
}

/// A failure that is classified neither as a disconnect nor as transient
/// terminates the bridge from every state in which it still runs: the exit
/// status is not zero, the action due is the stop, and no later events bring
/// the bridge back, so that it never again waits for the device or opens it.
pub proof fn lemma_fatal_terminates(
    state: BridgeState,
    failure: Failure,
    later: Seq<BridgeEvent>,
)
    requires
        !(state is Terminated),
        failure.disposition() is Fatal,
    ensures
        next_state(state, BridgeEvent::Failed(failure)) == (BridgeState::Terminated { failure }),
        exit_status_of(BridgeState::Terminated { failure }) == Some(FAILURE_STATUS),
        FAILURE_STATUS != 0,
        pending_action(BridgeState::Terminated { failure }) == BridgeAction::Stop,
        run(BridgeState::Terminated { failure }, later) == (BridgeState::Terminated { failure }),
        forwarded(BridgeState::Terminated { failure }, later) == Seq::<u8>::empty(),
{
    lemma_terminated_is_final(BridgeState::Terminated { failure }, later);
}

/// A terminated bridge stays as it is and forwards nothing, whatever
/// arrives.
pub proof fn lemma_terminated_is_final(state: BridgeState, events: Seq<BridgeEvent>)
    requires
        state is Terminated,
    ensures
        run(state, events) == state,
        forwarded(state, events) == Seq::<u8>::empty(),
    decreases events.len(),
{
    if events.len() > 0 {
        lemma_terminated_is_final(state, events.drop_first());
    }
}

/// The handle discipline: an open is due only where no handle exists; a
/// handle comes into being only by an open that was due; and the open after an
/// outage becomes due only when the wait has ended with the device back.
pub proof fn lemma_handle_discipline(state: BridgeState, event: BridgeEvent)
    ensures
        pending_action(state) == BridgeAction::Open ==> !holds_handle(state),
        pending_action(state) == BridgeAction::CloseAndWait ==> state is WaitingForDevice,
        holds_handle(next_state(state, event)) ==> holds_handle(state) || (event is Opened
            && pending_action(state) == BridgeAction::Open),
        next_state(state, event) is Reopening ==> state is Reopening || (state
            is WaitingForDevice && event is DeviceAppeared),
        next_state(state, event) is WaitingForDevice ==> state is WaitingForDevice
            || holds_handle(state),
{
}

/// Running over two runs of events, one after the other, is running over the
/// second from where the first ended; the bytes forwarded and the bytes
/// brought are those of the first followed by those of the second.
pub proof fn lemma_run_concat(
    state: BridgeState,
    first: Seq<BridgeEvent>,
    second: Seq<BridgeEvent>,
)
    ensures
        run(state, first + second) == run(run(state, first), second),
        forwarded(state, first + second) == forwarded(state, first) + forwarded(
            run(state, first),
            second,
        ),
        payload(first + second) == payload(first) + payload(second),
        follows_protocol(state, first + second) <==> follows_protocol(state, first)
            && follows_protocol(run(state, first), second),
    decreases first.len(),
{
    if first.len() == 0 {
        assert(first + second =~= second);
    } else {
        assert((first + second).drop_first() =~= first.drop_first() + second);
        lemma_run_concat(next_state(state, first[0]), first.drop_first(), second);
    }
}

/// Byte fidelity: as long as every event is an outcome of the action that was
/// due, the bytes that go to the data sink are exactly the bytes that came
/// from the device, each once and in the order of arrival, across any number
/// of outages.
pub proof fn lemma_forwarding_preserves_bytes(state: BridgeState, events: Seq<BridgeEvent>)
    requires
        follows_protocol(state, events),
    ensures
        forwarded(state, events) == payload(events),
    decreases events.len(),
{
    if events.len() > 0 {
        lemma_forwarding_preserves_bytes(next_state(state, events[0]), events.drop_first());
    }
}

/// Within one connected session the bridge stays connected and forwards the
/// chunks as they come.
pub proof fn lemma_session_preserves_bytes(chunks: Seq<BridgeEvent>)
    requires
        all_data(chunks),
    ensures
        run(BridgeState::Connected, chunks) == BridgeState::Connected,
        follows_protocol(BridgeState::Connected, chunks),
        forwarded(BridgeState::Connected, chunks) == payload(chunks),
    decreases chunks.len(),
{
    if chunks.len() > 0 {
        let rest = chunks.drop_first();
        assert(chunks[0] is Data);
        assert forall|i: int| 0 <= i < rest.len() implies (#[trigger] rest[i]) is Data by {
            assert(rest[i] == chunks[i + 1]);
        }
        lemma_session_preserves_bytes(rest);
    }
}

/// Across an outage the bridge comes back connected, and the data sink gets
/// the bytes from before the outage followed by the bytes from after it,
/// nothing else and nothing merged.
pub proof fn lemma_outage_preserves_bytes(
    before: Seq<BridgeEvent>,
    failure: Failure,
    after: Seq<BridgeEvent>,
)
    requires
        all_data(before),
        all_data(after),
        failure.disposition() is Recoverable,
    ensures
        run(BridgeState::Connected, before + outage(failure) + after) == BridgeState::Connected,
        forwarded(BridgeState::Connected, before + outage(failure) + after) == payload(before)
            + payload(after),
{
    let cycle = outage(failure);
    lemma_session_preserves_bytes(before);
    lemma_session_preserves_bytes(after);
    lemma_outage_cycle(failure);
    lemma_run_concat(BridgeState::Connected, before, cycle);
    lemma_run_concat(BridgeState::Connected, before + cycle, after);
    assert(forwarded(BridgeState::Connected, before + cycle + after) =~= payload(before)
        + payload(after));
}

/// One outage takes a connected bridge through the wait and the open back to
/// connected, and forwards nothing.
pub proof fn lemma_outage_cycle(failure: Failure)
    requires
        failure.disposition() is Recoverable,
    ensures
        run(BridgeState::Connected, outage(failure)) == BridgeState::Connected,
        forwarded(BridgeState::Connected, outage(failure)) == Seq::<u8>::empty(),
{
    reveal_with_fuel(run, 4);
    reveal_with_fuel(forwarded, 4);
    let after_failure = outage(failure).drop_first();
    let after_wait = after_failure.drop_first();
    assert(after_wait.drop_first().len() == 0);
    assert(forwarded(BridgeState::Connected, outage(failure)) =~= Seq::<u8>::empty());
}

} // verus!
