//! The probe that identifies the sensor and, where it has a magnetometer,
//! enables it.
//!
//! The probe performs no bus transfer. It is a state machine that is handed
//! what happened on the bus and answers with what to do next:
//!
//! ```text
//! Uninitialized -> Probing -> MagCapable(MasterPending) -> MagCapable(ConfigPending) -> Ready
//!                          -> Ready                      (a part without magnetometer)
//!                          -> Failed                     (any other identity)
//! ```
//!
//! Every state with a command in flight also leads to `Failed` when the
//! exchange fails. `Ready` and `Failed` are final.

use vstd::prelude::*;
use crate::error::ImuError;
use crate::mpu9250::Mpu9250;
use crate::registers::{
    answers, aux_master_command, aux_master_request, identity_command, identity_request,
    mag_config_command, mag_config_request, motion_command,
};
use crate::variant::{variant_of, Variant};

verus! {

/// Which write of the magnetometer-enable sequence is in flight.
#[derive(Clone, Copy, Debug, PartialEq, Eq, Structural)]
pub enum MagSetup {
    /// The write that takes the auxiliary bus out of pass-through mode.
    MasterPending,
    /// The write that configures the continuous read of the magnetometer.
    ConfigPending,
}

/// The states of the probe.
#[derive(Clone, Copy, Debug, PartialEq, Eq, Structural)]
pub enum ProbeState {
    /// Nothing has been sent.
    Uninitialized,
    /// The identity read is in flight.
    Probing,
    /// The part has a magnetometer, which is being enabled.
    MagCapable(MagSetup),
    /// The handle has been handed out.
    Ready(Variant),
    /// The probe has failed, and no handle will be handed out.
    Failed(ImuError),
}

/// What happened on the bus.
#[derive(Clone, Debug, PartialEq, Eq)]
pub enum Event {
    /// The probe is asked to begin.
    Start,
    /// The exchange of the command in flight brought back these bytes.
    Response(Vec<u8>),
    /// The exchange of the command in flight failed.
    TransportFailure,
}

/// What the probe asks for.
#[derive(Debug, PartialEq, Eq)]
pub enum Action {
    /// Exchange these bytes on the bus, and report the outcome.
    Transact(Vec<u8>),
    /// The sensor is identified and set up: here is its handle.
    Ready(Mpu9250),
    /// The probe failed for this reason.
    Fail(ImuError),
    /// The event does not apply in this state. Nothing changes.
    Idle,
}

/// An event, with its bytes as a sequence.
pub enum EventView {
    Start,
    Response(Seq<u8>),
    TransportFailure,
}

/// An action, with its bytes as a sequence and its handle as the variant.
pub enum ActionView {
    Transact(Seq<u8>),
    Ready(Variant),
    Fail(ImuError),
    Idle,
}

impl View for Event {
    type V = EventView;

    open spec fn view(&self) -> EventView {
        match self {
            Event::Start => EventView::Start,
            Event::Response(bytes) => EventView::Response(bytes@),
            Event::TransportFailure => EventView::TransportFailure,
        }
    }
}

impl View for Action {
    type V = ActionView;

    open spec fn view(&self) -> ActionView {
        match self {
            Action::Transact(bytes) => ActionView::Transact(bytes@),
            Action::Ready(handle) => ActionView::Ready(handle@),
            Action::Fail(e) => ActionView::Fail(*e),
            Action::Idle => ActionView::Idle,
        }
    }
}

/// The command whose response the probe waits for in `state`.
pub open spec fn in_flight(state: ProbeState) -> Option<Seq<u8>> {
    match state {
        ProbeState::Probing => Some(identity_command()),
        ProbeState::MagCapable(MagSetup::MasterPending) => Some(aux_master_command()),
        ProbeState::MagCapable(MagSetup::ConfigPending) => Some(mag_config_command()),
        _ => None,
    }
}

/// The probe fails for the reason `e`.
pub open spec fn fail_with(e: ImuError) -> (ProbeState, ActionView) {
    (ProbeState::Failed(e), ActionView::Fail(e))
}

/// What follows when the command in flight in `state` is answered by
/// `response`, which has the length of that command.
pub open spec fn after_response(state: ProbeState, response: Seq<u8>) -> (ProbeState, ActionView) {
    match state {
        ProbeState::Probing => match variant_of(response[1]) {
            Some(Variant::MagCapable) => (
                ProbeState::MagCapable(MagSetup::MasterPending),
                ActionView::Transact(aux_master_command()),
            ),
            Some(Variant::GyroOnly) => (
                ProbeState::Ready(Variant::GyroOnly),
                ActionView::Ready(Variant::GyroOnly),
            ),
            None => fail_with(ImuError::UnsupportedDevice { id: response[1] }),
        },
        ProbeState::MagCapable(MagSetup::MasterPending) => (
            ProbeState::MagCapable(MagSetup::ConfigPending),
            ActionView::Transact(mag_config_command()),
        ),
        ProbeState::MagCapable(MagSetup::ConfigPending) => (
            ProbeState::Ready(Variant::MagCapable),
            ActionView::Ready(Variant::MagCapable),
        ),
        _ => (state, ActionView::Idle),
    }
}

/// The transition function of the probe: the state that follows `state` on
/// `event`, and the action that the probe asks for.
pub open spec fn next(state: ProbeState, event: EventView) -> (ProbeState, ActionView) {
    match event {
        EventView::Start => if state is Uninitialized {
            (ProbeState::Probing, ActionView::Transact(identity_command()))
        } else {
            (state, ActionView::Idle)
        },
        EventView::TransportFailure => if in_flight(state) is Some {
            fail_with(ImuError::Transport)
        } else {
            (state, ActionView::Idle)
        },
        EventView::Response(response) => match in_flight(state) {
            Some(command) => if answers(command.len(), response) {
                after_response(state, response)
            } else {
                fail_with(ImuError::Transport)
            },
            None => (state, ActionView::Idle),
        },
    }
}

/// The probe, as it runs.
#[derive(Debug)]
pub struct Probe {
    state: ProbeState,
}

impl View for Probe {
    type V = ProbeState;

    /// The state of the probe.
    closed spec fn view(&self) -> ProbeState {
        self.state
    }
}

impl Probe {
    /// A probe that has sent nothing yet.
    pub fn new() -> (probe: Probe)
        ensures
            probe@ == ProbeState::Uninitialized,
    {
        Probe { state: ProbeState::Uninitialized }
    }

    /// The state of the probe.
    pub fn state(&self) -> (state: ProbeState)
        ensures
            state == self@,
    {
        self.state
    }

    /// The length of the command in flight, if there is one.
    fn awaited_len(&self) -> (len: Option<usize>)
        ensures
            in_flight(self@) matches Some(command) ==> len == Some(command.len() as usize)
                && command.len() >= 1,
            in_flight(self@) is None ==> len is None,
    {
        match self.state {
            ProbeState::Probing => Some(2),
            ProbeState::MagCapable(MagSetup::MasterPending) => Some(2),
            ProbeState::MagCapable(MagSetup::ConfigPending) => Some(5),
            _ => None,
        }
    }

    /// Enters the failed state.
    fn fail(&mut self, e: ImuError) -> (action: Action)
        ensures
            (final(self)@, action@) == fail_with(e),
    {
        self.state = ProbeState::Failed(e);
        Action::Fail(e)
    }

    /// Moves on after the command in flight was answered.
    fn advance(&mut self, response: &[u8]) -> (action: Action)
        requires
            in_flight(old(self)@) matches Some(command) && answers(command.len(), response@),
        ensures
            (final(self)@, action@) == after_response(old(self)@, response@),
    {
        match self.state {
            ProbeState::Probing => match Variant::identify(response[1]) {
                Ok(Variant::MagCapable) => {
                    self.state = ProbeState::MagCapable(MagSetup::MasterPending);
                    Action::Transact(aux_master_request())
                },
                Ok(Variant::GyroOnly) => {
                    self.state = ProbeState::Ready(Variant::GyroOnly);
                    Action::Ready(Mpu9250::of_variant(Variant::GyroOnly))
                },
                Err(e) => self.fail(e),
            },
            ProbeState::MagCapable(MagSetup::MasterPending) => {
                self.state = ProbeState::MagCapable(MagSetup::ConfigPending);
                Action::Transact(mag_config_request())
            },
            ProbeState::MagCapable(MagSetup::ConfigPending) => {
                self.state = ProbeState::Ready(Variant::MagCapable);
                Action::Ready(Mpu9250::of_variant(Variant::MagCapable))
            },
            _ => Action::Idle,
        }
    }

    /// Takes one event and answers with the action to perform. The state
    /// and the action are those of the transition function `next`.
    pub fn step(&mut self, event: &Event) -> (action: Action)
        ensures
            (final(self)@, action@) == next(old(self)@, event@),
    {
        match event {
            Event::Start => match self.state {
                ProbeState::Uninitialized => {
                    self.state = ProbeState::Probing;
                    Action::Transact(identity_request())
                },
                _ => Action::Idle,
            },
            Event::TransportFailure => match self.awaited_len() {
                Some(_) => self.fail(ImuError::Transport),
                None => Action::Idle,
            },
            Event::Response(bytes) => match self.awaited_len() {
                Some(len) => if bytes.len() == len {
                    self.advance(bytes.as_slice())
                } else {
                    self.fail(ImuError::Transport)
                },
                None => Action::Idle,
            },
        }
    }
}

/// The state that the probe reaches from `Uninitialized` on `events`, and
/// the actions that it asks for on the way, one for each event.
pub open spec fn run(events: Seq<EventView>) -> (ProbeState, Seq<ActionView>)
    decreases events.len(),
{
    if events.len() == 0 {
        (ProbeState::Uninitialized, Seq::empty())
    } else {
        let (state, actions) = run(events.drop_last());
        let (state, action) = next(state, events.last());
        (state, actions.push(action))
    }
}

/// The commands among `actions`, in their order.
pub open spec fn commands_in(actions: Seq<ActionView>) -> Seq<Seq<u8>>
    decreases actions.len(),
{
    if actions.len() == 0 {
        Seq::empty()
    } else {
        let before = commands_in(actions.drop_last());
        match actions.last() {
            ActionView::Transact(command) => before.push(command),
            _ => before,
        }
    }
}

/// The handles among `actions`, each as its variant, in their order.
pub open spec fn handles_in(actions: Seq<ActionView>) -> Seq<Variant>
    decreases actions.len(),
{
    if actions.len() == 0 {
        Seq::empty()
    } else {
        let before = handles_in(actions.drop_last());
        match actions.last() {
            ActionView::Ready(variant) => before.push(variant),
            _ => before,
        }
    }
}

/// Every command that a probe can send, in the order in which it sends
/// them: the identity read, then the two writes that enable the
/// magnetometer.
pub open spec fn script() -> Seq<Seq<u8>> {
    seq![identity_command(), aux_master_command(), mag_config_command()]
}

/// How many commands of the script a probe has sent when it is in `state`.
/// The failed state does not tell.
pub open spec fn progress(state: ProbeState) -> nat {
    match state {
        ProbeState::Uninitialized => 0,
        ProbeState::Probing => 1,
        ProbeState::MagCapable(MagSetup::MasterPending) => 2,
        ProbeState::MagCapable(MagSetup::ConfigPending) => 3,
        ProbeState::Ready(Variant::GyroOnly) => 1,
        ProbeState::Ready(Variant::MagCapable) => 3,
        ProbeState::Failed(_) => 0,
    }
}

/// The handles that a probe has handed out when it is in `state`.
pub open spec fn handed_out(state: ProbeState) -> Seq<Variant> {
    match state {
        ProbeState::Ready(variant) => seq![variant],
        _ => Seq::empty(),
    }
}

/// Running one more event is one more transition.
pub proof fn lemma_run_push(events: Seq<EventView>, event: EventView)
    ensures
        run(events.push(event)) == (
            next(run(events).0, event).0,
            run(events).1.push(next(run(events).0, event).1),
        ),
{
    assert(events.push(event).drop_last() =~= events);
}

/// Whatever happens on the bus, the commands that a probe sends are the
/// script up to some point: first the identity read, then the two writes
/// that enable the magnetometer, each at most once and in this order. The
/// probe never reads the motion data block. Unless it has failed, its state
/// tells how far it has come; it hands out a handle exactly when it becomes
/// ready, and only one.
pub proof fn lemma_commands_follow_script(events: Seq<EventView>)
    ensures
        commands_in(run(events).1).len() <= script().len(),
        commands_in(run(events).1) == script().subrange(
            0,
            commands_in(run(events).1).len() as int,
        ),
        !(run(events).0 is Failed) ==> commands_in(run(events).1).len() == progress(run(events).0),
        forall|i: int|
            0 <= i < commands_in(run(events).1).len() ==> #[trigger] commands_in(run(events).1)[i]
                != motion_command(),
        handles_in(run(events).1) == handed_out(run(events).0),
    decreases events.len(),
{
    if events.len() == 0 {
        assert(commands_in(run(events).1) =~= script().subrange(0, 0));
        assert(handles_in(run(events).1) =~= handed_out(run(events).0));
    } else {
        let before = events.drop_last();
        lemma_commands_follow_script(before);
        let (state, actions) = run(before);
        let (state2, action) = next(state, events.last());
        assert(run(events) == (state2, actions.push(action)));
        assert(actions.push(action).drop_last() =~= actions);
        let sent = commands_in(actions);
        let sent2 = commands_in(actions.push(action));
        match action {
            ActionView::Transact(command) => {
                assert(sent2 == sent.push(command));
                assert(command == script()[progress(state) as int]);
                assert(sent2 =~= script().subrange(0, sent2.len() as int));
            },
            _ => {
                assert(sent2 == sent);
            },
        }
        assert(handles_in(actions.push(action)) =~= handed_out(state2));
        assert(motion_command().len() == 21);
    }
}

/// Whether `event` is a response of two bytes that carries the identity
/// byte `id`.
pub open spec fn carries_identity(event: EventView, id: u8) -> bool {
    match event {
        EventView::Response(response) => response.len() == 2 && response[1] == id,
        _ => false,
    }
}

/// The identity byte that a probe in `state` has seen, where the state
/// tells.
pub open spec fn seen_identity(state: ProbeState) -> Option<u8> {
    match state {
        ProbeState::MagCapable(_) => Some(Variant::MagCapable.id_spec()),
        ProbeState::Ready(variant) => Some(variant.id_spec()),
        ProbeState::Failed(ImuError::UnsupportedDevice { id }) => Some(id),
        _ => None,
    }
}

/// Whatever happens on the bus, the variant of the probe is the one that
/// the bus named: a probe that enables the magnetometer, or has handed out
/// a handle, or has refused a part, has been given a response of two bytes
/// with the identity byte of that part. It refuses only bytes that name no
/// supported part.
pub proof fn lemma_outcome_matches_identity(events: Seq<EventView>)
    ensures
        seen_identity(run(events).0) matches Some(id) ==> exists|i: int|
            0 <= i < events.len() && carries_identity(#[trigger] events[i], id),
        run(events).0 matches ProbeState::Failed(ImuError::UnsupportedDevice { id }) ==> variant_of(
            id,
        ) is None,
    decreases events.len(),
{
    if events.len() > 0 {
        let before = events.drop_last();
        lemma_outcome_matches_identity(before);
        let state = run(before).0;
        let state2 = run(events).0;
        assert(state2 == next(state, events.last()).0);
        if let Some(id) = seen_identity(state2) {
            if seen_identity(state) == Some(id) {
                let i = choose|i: int| 0 <= i < before.len() && carries_identity(#[trigger] before[i], id);
                assert(events[i] == before[i]);
            } else {
                assert(state is Probing);
                assert(carries_identity(events[events.len() - 1], id));
            }
        }
    }
}

/// A part with a magnetometer: after the identity read is answered with
/// `0x71`, the probe sends the two writes that enable the magnetometer,
/// each once, and hands out the handle when the second is answered.
pub proof fn lemma_probe_mag_capable(identity: Seq<u8>, first: Seq<u8>, second: Seq<u8>)
    requires
        identity.len() == 2,
        variant_of(identity[1]) == Some(Variant::MagCapable),
        first.len() == 2,
        second.len() == 5,
    ensures
        run(
            seq![
                EventView::Start,
                EventView::Response(identity),
                EventView::Response(first),
                EventView::Response(second),
            ],
        ) == (
            ProbeState::Ready(Variant::MagCapable),
            seq![
                ActionView::Transact(identity_command()),
                ActionView::Transact(aux_master_command()),
                ActionView::Transact(mag_config_command()),
                ActionView::Ready(Variant::MagCapable),
            ],
        ),
{
    let e0 = Seq::<EventView>::empty();
    let e1 = e0.push(EventView::Start);
    let e2 = e1.push(EventView::Response(identity));
    let e3 = e2.push(EventView::Response(first));
    let e4 = e3.push(EventView::Response(second));
    lemma_run_push(e0, EventView::Start);
    lemma_run_push(e1, EventView::Response(identity));
    lemma_run_push(e2, EventView::Response(first));
    lemma_run_push(e3, EventView::Response(second));
    assert(e4 =~= seq![
        EventView::Start,
        EventView::Response(identity),
        EventView::Response(first),
        EventView::Response(second),
    ]);
    assert(run(e4).1 =~= seq![
        ActionView::Transact(identity_command()),
        ActionView::Transact(aux_master_command()),
        ActionView::Transact(mag_config_command()),
        ActionView::Ready(Variant::MagCapable),
    ]);
}

/// A part without a magnetometer: after the identity read is answered with
/// `0x70`, the probe hands out the handle at once and sends no write.
pub proof fn lemma_probe_gyro_only(identity: Seq<u8>)
    requires
        identity.len() == 2,
        variant_of(identity[1]) == Some(Variant::GyroOnly),
    ensures
        run(seq![EventView::Start, EventView::Response(identity)]) == (
            ProbeState::Ready(Variant::GyroOnly),
            seq![ActionView::Transact(identity_command()), ActionView::Ready(Variant::GyroOnly)],
        ),
{
    let e0 = Seq::<EventView>::empty();
    let e1 = e0.push(EventView::Start);
    let e2 = e1.push(EventView::Response(identity));
    lemma_run_push(e0, EventView::Start);
    lemma_run_push(e1, EventView::Response(identity));
    assert(e2 =~= seq![EventView::Start, EventView::Response(identity)]);
    assert(run(e2).1 =~= seq![
        ActionView::Transact(identity_command()),
        ActionView::Ready(Variant::GyroOnly),
    ]);
}

/// Any other part: after the identity read is answered with a byte that
/// names no supported part, the probe fails with that byte, having sent
/// nothing but the identity read.
pub proof fn lemma_probe_unsupported(identity: Seq<u8>)
    requires
        identity.len() == 2,
        variant_of(identity[1]) is None,
    ensures
        run(seq![EventView::Start, EventView::Response(identity)]) == (
            ProbeState::Failed(ImuError::UnsupportedDevice { id: identity[1] }),
            seq![
                ActionView::Transact(identity_command()),
                ActionView::Fail(ImuError::UnsupportedDevice { id: identity[1] }),
            ],
        ),
{
    let e0 = Seq::<EventView>::empty();
    let e1 = e0.push(EventView::Start);
    let e2 = e1.push(EventView::Response(identity));
    lemma_run_push(e0, EventView::Start);
    lemma_run_push(e1, EventView::Response(identity));
    assert(e2 =~= seq![EventView::Start, EventView::Response(identity)]);
    assert(run(e2).1 =~= seq![
        ActionView::Transact(identity_command()),
        ActionView::Fail(ImuError::UnsupportedDevice { id: identity[1] }),
    ]);
}

/// `Ready` and `Failed` are final: once the probe is in one of them, no
/// event changes its state, and every further action is `Idle`.
pub proof fn lemma_settled_stays(events: Seq<EventView>, more: Seq<EventView>)
    requires
        run(events).0 is Ready || run(events).0 is Failed,
    ensures
        run(events + more).0 == run(events).0,
        run(events + more).1 == run(events).1 + Seq::new(more.len(), |i: int| ActionView::Idle),
        commands_in(run(events + more).1) == commands_in(run(events).1),
    decreases more.len(),
{
    let idle = Seq::new(more.len(), |i: int| ActionView::Idle);
    if more.len() == 0 {
        assert(events + more =~= events);
        assert(run(events).1 + idle =~= run(events).1);
    } else {
        let shorter = more.drop_last();
        lemma_settled_stays(events, shorter);
        assert(events + more =~= (events + shorter).push(more.last()));
        lemma_run_push(events + shorter, more.last());
        let idle_shorter = Seq::new(shorter.len(), |i: int| ActionView::Idle);
        assert((run(events).1 + idle_shorter).push(ActionView::Idle) =~= run(events).1 + idle);
        assert(run(events + more).1.drop_last() =~= run(events + shorter).1);
    }
}

} // verus!
