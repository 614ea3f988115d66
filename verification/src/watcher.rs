//! The reconnect watcher: the wait until the device path exists again, as a
//! state machine.
//!
//! The wait first probes the path, and ends at once where it exists. Else it
//! has the parent directory of the path polled, and takes in what the poller
//! observes until one creation names the path itself. It has no timeout.

use vstd::prelude::*;
use crate::bridge::{answers, next_state, BridgeAction, BridgeEvent, BridgeState};
use crate::failure::Failure;

verus! {

/// The time between two polls of the watched directory, in milliseconds.
pub const POLL_INTERVAL_MS: u64 = 500;

/// What kind of change a poll observed.
#[derive(Clone, Copy, Debug, PartialEq, Eq, Structural)]
pub enum WatchEventKind {
    /// Something came into being.
    Create,
    /// Something was removed.
    Remove,
    /// Anything else.
    Other,
}

/// One observation of the poller: a kind, and the paths it is about.
#[derive(Clone, Debug, PartialEq, Eq)]
pub struct WatchEvent {
    pub kind: WatchEventKind,
    pub paths: Vec<String>,
}

/// Where the wait stands.
#[derive(Clone, Debug, PartialEq, Eq)]
pub enum WatchState {
    /// The probe of the target path is due.
    Probing,
    /// The target was absent; the poll of its parent directory has to be set
    /// up.
    Arming,
    /// The poll is on; observations are taken in.
    Watching,
    /// The target exists: the wait succeeded.
    Found,
    /// The wait failed, for good.
    Failed { failure: Failure },
}

/// What the caller has to do next.
#[derive(Clone, Copy, Debug, PartialEq, Eq, Structural)]
pub enum WatchAction {
    /// Test whether the target path exists.
    Probe,
    /// Start polling the parent directory of the target at this interval,
    /// with or without the directories below it.
    Arm { interval_ms: u64, recursive: bool },
    /// Block until the poller delivers its next item.
    Receive,
    /// End the wait and hand on its conclusion.
    Finish,
}

/// What the caller reports back.
#[derive(Clone, Debug, PartialEq, Eq)]
pub enum WatchInput {
    /// The probe found the target present or absent.
    Probed { exists: bool },
    /// The poll is set up.
    Armed,
    /// The poll could not be set up.
    ArmFailed { reason: String },
    /// The poller observed something.
    Event(WatchEvent),
    /// The poller delivered an error in place of an observation.
    SourceFailed { reason: String },
    /// The poller stopped: no further item will come.
    Exhausted,
}

impl WatchEvent {
    /// Whether this observation is a creation whose paths include exactly
    /// `target`.
    pub open spec fn creates(self, target: Seq<char>) -> bool {
        self.kind is Create && exists|i: int|
            0 <= i < self.paths@.len() && (#[trigger] self.paths@[i])@ == target
    }

    /// Tests whether this observation is a creation whose paths include
    /// exactly `target`.
    pub fn is_creation_of(&self, target: &String) -> (found: bool)
        ensures
            found == self.creates(target@),
    {
        match self.kind {
            WatchEventKind::Create => {},
            _ => {
                return false;
            },
        }
        let mut i: usize = 0;
        while i < self.paths.len()
            invariant
                i <= self.paths@.len(),
                self.kind is Create,
                forall|j: int| 0 <= j < i ==> (#[trigger] self.paths@[j])@ != target@,
            decreases self.paths@.len() - i,
        {
            if self.paths[i] == *target {
                return true;
            }
            i += 1;
        }
        false
    }
}

/// The action that is due in `state`.
pub open spec fn pending_watch_action(state: WatchState) -> WatchAction {
    match state {
        WatchState::Probing => WatchAction::Probe,
        WatchState::Arming => WatchAction::Arm { interval_ms: POLL_INTERVAL_MS, recursive: false },
        WatchState::Watching => WatchAction::Receive,
        WatchState::Found => WatchAction::Finish,
        WatchState::Failed { .. } => WatchAction::Finish,
    }
}

/// The state that follows `state` on `input`, in a wait for `target`.
///
/// Each state takes in the outcomes of its own action, and nothing else
/// changes it. While watching, only a creation of the target itself ends the
/// wait with success: other kinds and creations of other paths are passed
/// over.
pub open spec fn next_watch_state(state: WatchState, target: Seq<char>, input: WatchInput)
    -> WatchState {
    match state {
        WatchState::Probing => match input {
            WatchInput::Probed { exists } => if exists {
                WatchState::Found
            } else {
                WatchState::Arming
            },
            _ => state,
        },
        WatchState::Arming => match input {
            WatchInput::Armed => WatchState::Watching,
            WatchInput::ArmFailed { reason } => WatchState::Failed {
                failure: Failure::WatchSetup { reason },
            },
            _ => state,
        },
        WatchState::Watching => match input {
            WatchInput::Event(event) => if event.creates(target) {
                WatchState::Found
            } else {
                WatchState::Watching
            },
            WatchInput::SourceFailed { reason } => WatchState::Failed {
                failure: Failure::WatchSource { reason },
            },
            WatchInput::Exhausted => WatchState::Failed { failure: Failure::WatchExhausted },
            _ => state,
        },
        WatchState::Found => state,
        WatchState::Failed { .. } => state,
    }
}

/// What the wait hands on to the bridge once it has ended in `state`.
pub open spec fn conclusion_of(state: WatchState) -> Option<BridgeEvent> {
    match state {
        WatchState::Found => Some(BridgeEvent::DeviceAppeared),
        WatchState::Failed { failure } => Some(BridgeEvent::Failed(failure)),
        _ => None,
    }
}

/// Whether `input` is a possible outcome of `action`.
pub open spec fn watch_answers(action: WatchAction, input: WatchInput) -> bool {
    match action {
        WatchAction::Probe => input is Probed,
        WatchAction::Arm { .. } => input is Armed || input is ArmFailed,
        WatchAction::Receive => input is Event || input is SourceFailed || input is Exhausted,
        WatchAction::Finish => false,
    }
}

/// The state reached from `state` once `inputs` have arrived, in order, in a
/// wait for `target`.
pub open spec fn watch_run(state: WatchState, target: Seq<char>, inputs: Seq<WatchInput>)
    -> WatchState
    decreases inputs.len(),
{
    if inputs.len() == 0 {
        state
    } else {
        watch_run(next_watch_state(state, target, inputs[0]), target, inputs.drop_first())
    }
}

/// Whether each of `inputs`, arriving in order from `state` on, is an outcome
/// of the action that was due when it arrived.
pub open spec fn follows_watch_protocol(
    state: WatchState,
    target: Seq<char>,
    inputs: Seq<WatchInput>,
) -> bool
    decreases inputs.len(),
{
    inputs.len() == 0 || (watch_answers(pending_watch_action(state), inputs[0])
        && follows_watch_protocol(
        next_watch_state(state, target, inputs[0]),
        target,
        inputs.drop_first(),
    ))
}

/// Whether `input` is a probe that found the target present.
pub open spec fn finds_present(input: WatchInput) -> bool {
    input matches WatchInput::Probed { exists } && exists
}

/// Whether `input` is the observation of a creation of `target` itself.
pub open spec fn announces(input: WatchInput, target: Seq<char>) -> bool {
    input matches WatchInput::Event(event) && event.creates(target)
}

/// A [`ReconnectWatcher`] as a mathematical value.
pub struct WatcherModel {
    pub target: Seq<char>,
    pub state: WatchState,
}

/// One wait for one device path.
pub struct ReconnectWatcher {
    target: String,
    state: WatchState,
}

impl View for ReconnectWatcher {
    type V = WatcherModel;

    closed spec fn view(&self) -> WatcherModel {
        WatcherModel { target: self.target@, state: self.state }
    }
}

impl ReconnectWatcher {
    /// A wait for `target`, with the probe due.
    pub fn new(target: String) -> (watcher: ReconnectWatcher)
        ensures
            watcher@.target == target@,
            watcher@.state == WatchState::Probing,
    {
        ReconnectWatcher { target, state: WatchState::Probing }
    }

    /// The path that is waited for.
    pub fn target(&self) -> (target: &String)
        ensures
            target@ == self@.target,
    {
        &self.target
    }

    /// Where the wait stands.
    pub fn state(&self) -> (state: &WatchState)
        ensures
            *state == self@.state,
    {
        &self.state
    }

    /// What the caller has to do next.
    pub fn next_action(&self) -> (action: WatchAction)
        ensures
            action == pending_watch_action(self@.state),
    {
        match &self.state {
            WatchState::Probing => WatchAction::Probe,
            WatchState::Arming => WatchAction::Arm {
                interval_ms: POLL_INTERVAL_MS,
                recursive: false,
            },
            WatchState::Watching => WatchAction::Receive,
            WatchState::Found => WatchAction::Finish,
            WatchState::Failed { .. } => WatchAction::Finish,
        }
    }

    /// Takes in what the caller reports and moves to the next state.
    pub fn feed(&mut self, input: WatchInput)
        ensures
            final(self)@.target == old(self)@.target,
            final(self)@.state == next_watch_state(old(self)@.state, old(self)@.target, input),
    {
        match &self.state {
            WatchState::Probing => match input {
                WatchInput::Probed { exists } => {
                    if exists {
                        self.state = WatchState::Found;
                    } else {
                        self.state = WatchState::Arming;
                    }
                },
                _ => {},
            },
            WatchState::Arming => match input {
                WatchInput::Armed => {
                    self.state = WatchState::Watching;
                },
                WatchInput::ArmFailed { reason } => {
                    self.state = WatchState::Failed { failure: Failure::WatchSetup { reason } };
                },
                _ => {},
            },
            WatchState::Watching => match input {
                WatchInput::Event(event) => {
                    if event.is_creation_of(&self.target) {
                        self.state = WatchState::Found;
                    }
                },
                WatchInput::SourceFailed { reason } => {
                    self.state = WatchState::Failed { failure: Failure::WatchSource { reason } };
                },
                WatchInput::Exhausted => {
                    self.state = WatchState::Failed { failure: Failure::WatchExhausted };
                },
                _ => {},
            },
            WatchState::Found => {},
            WatchState::Failed { .. } => {},
        }
    }

    /// Ends the wait: the event for the bridge, or `None` while the wait is
    /// still on.
    pub fn conclusion(self) -> (event: Option<BridgeEvent>)
        ensures
            event == conclusion_of(self@.state),
    {
        match self.state {
            WatchState::Found => Some(BridgeEvent::DeviceAppeared),
            WatchState::Failed { failure } => Some(BridgeEvent::Failed(failure)),
            _ => None,
        }
    }
}

/// The fast path: where the probe finds the target present the wait has
/// succeeded at once. What is due then is the end of the wait, so that no
/// poll is set up and no observation is asked for, and whatever might still
/// arrive changes nothing.
pub proof fn lemma_present_target_ends_wait(target: Seq<char>, later: Seq<WatchInput>)
    ensures
        next_watch_state(WatchState::Probing, target, WatchInput::Probed { exists: true })
            == WatchState::Found,
        pending_watch_action(WatchState::Found) == WatchAction::Finish,
        conclusion_of(WatchState::Found) == Some(BridgeEvent::DeviceAppeared),
        watch_run(WatchState::Found, target, later) == WatchState::Found,
        follows_watch_protocol(WatchState::Found, target, later) ==> later.len() == 0,
{
    lemma_ended_wait_is_final(WatchState::Found, target, later);
}

/// A wait that has ended stays as it is, whatever arrives.
pub proof fn lemma_ended_wait_is_final(
    state: WatchState,
    target: Seq<char>,
    inputs: Seq<WatchInput>,
)
    requires
        state is Found || state is Failed,
    ensures
        watch_run(state, target, inputs) == state,
    decreases inputs.len(),
{
    if inputs.len() > 0 {
        lemma_ended_wait_is_final(state, target, inputs.drop_first());
    }
}

/// While watching, one observation ends the wait with success exactly where
/// it is a creation whose paths include the target itself.
pub proof fn lemma_only_creation_of_target_succeeds(target: Seq<char>, input: WatchInput)
    ensures
        next_watch_state(WatchState::Watching, target, input) is Found <==> announces(
            input,
            target,
        ),
{
}

/// While watching, an observation none of whose paths is the target itself
/// is passed over, of whatever kind it is: the creation of a sibling does
/// not end the wait.
pub proof fn lemma_other_paths_are_passed_over(target: Seq<char>, event: WatchEvent)
    requires
        forall|i: int| 0 <= i < event.paths@.len() ==> (#[trigger] event.paths@[i])@ != target,
    ensures
        !event.creates(target),
        next_watch_state(WatchState::Watching, target, WatchInput::Event(event))
            == WatchState::Watching,
{
}

/// While watching, an observation that is no creation is passed over, even
/// where it names the target.
pub proof fn lemma_other_kinds_are_passed_over(target: Seq<char>, event: WatchEvent)
    requires
        !(event.kind is Create),
    ensures
        next_watch_state(WatchState::Watching, target, WatchInput::Event(event))
            == WatchState::Watching,
{
}

/// A wait that has not yet succeeded ends with success only upon a probe that
/// found the target present or upon the observation of a creation of the
/// target itself; from watching on, only upon the latter.
pub proof fn lemma_success_has_a_witness(
    state: WatchState,
    target: Seq<char>,
    inputs: Seq<WatchInput>,
)
    requires
        !(state is Found),
        watch_run(state, target, inputs) is Found,
    ensures
        exists|i: int|
            0 <= i < inputs.len() && (finds_present(#[trigger] inputs[i]) || announces(
                inputs[i],
                target,
            )),
        state is Watching ==> exists|i: int|
            0 <= i < inputs.len() && announces(#[trigger] inputs[i], target),
    decreases inputs.len(),
{
    if inputs.len() == 0 {
    } else {
        let first = inputs[0];
        let rest = inputs.drop_first();
        let then = next_watch_state(state, target, first);
        if then is Found {
            assert(finds_present(inputs[0]) || announces(inputs[0], target));
            if state is Watching {
                assert(announces(inputs[0], target));
            }
        } else {
            if then is Failed {
                lemma_ended_wait_is_final(then, target, rest);
            }
            lemma_success_has_a_witness(then, target, rest);
            let i = choose|i: int|
                0 <= i < rest.len() && (finds_present(#[trigger] rest[i]) || announces(
                    rest[i],
                    target,
                ));
            assert(rest[i] == inputs[i + 1]);
            assert(finds_present(inputs[i + 1]) || announces(inputs[i + 1], target));
            if state is Watching {
                assert(then is Watching);
                let j = choose|j: int| 0 <= j < rest.len() && announces(#[trigger] rest[j], target);
                assert(rest[j] == inputs[j + 1]);
                assert(announces(inputs[j + 1], target));
            }
        }
    }
}

/// Every failure in which a wait ends is fatal to the bridge: it is an
/// outcome of the wait that the bridge asked for, and it terminates the
/// waiting bridge, which does not try again.
pub proof fn lemma_failed_wait_is_fatal(state: WatchState, target: Seq<char>, input: WatchInput)
    requires
        !(state is Failed),
        next_watch_state(state, target, input) is Failed,
    ensures
        ({
            let failure = next_watch_state(state, target, input)->failure;
            &&& failure is WatchSetup || failure is WatchSource || failure is WatchExhausted
            &&& input is Exhausted ==> failure == Failure::WatchExhausted
            &&& answers(BridgeAction::CloseAndWait, BridgeEvent::Failed(failure))
            &&& next_state(BridgeState::WaitingForDevice, BridgeEvent::Failed(failure)) == (
            BridgeState::Terminated { failure })
        }),
{
}

} // verus!
