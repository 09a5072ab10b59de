//! The packet relay state machine: receiving a packet on its destination,
//! relaying its acknowledgement back, and deciding when it timed out. The
//! machine decides; a driver performs each action on the chains and hands
//! the result back as the next event.
use crate::retry::RelayError;
use crate::types::{Height, IbcEvent, Packet};
use vstd::prelude::*;

verus! {

/// Two packet records stand for the same packet: same endpoints and sequence.
pub open spec fn same_packet(a: Packet, b: Packet) -> bool {
    &&& a.sequence == b.sequence
    &&& a.source_port@ == b.source_port@
    &&& a.source_channel@ == b.source_channel@
    &&& a.destination_port@ == b.destination_port@
    &&& a.destination_channel@ == b.destination_channel@
}

pub fn is_same_packet(a: &Packet, b: &Packet) -> (r: bool)
    ensures
        r == same_packet(*a, *b),
{
    a.sequence == b.sequence && a.source_port == b.source_port && a.source_channel
        == b.source_channel && a.destination_port == b.destination_port && a.destination_channel
        == b.destination_channel
}

/// The acknowledgement that the destination chain wrote for a packet.
#[derive(Clone, Debug, PartialEq, Eq)]
pub struct WriteAcknowledgementEvent {
    pub packet: Packet,
    pub ack: String,
}

impl WriteAcknowledgementEvent {
    pub open spec fn of_event(e: IbcEvent) -> Option<WriteAcknowledgementEvent> {
        match e {
            IbcEvent::WriteAcknowledgement(p, a) => Some(WriteAcknowledgementEvent { packet: p, ack: a }),
            _ => None,
        }
    }

    /// The acknowledgement an event records, if it records one.
    pub fn try_from_event(e: &IbcEvent) -> (r: Option<WriteAcknowledgementEvent>)
        ensures
            r == Self::of_event(*e),
    {
        match e {
            IbcEvent::WriteAcknowledgement(p, a) => Some(
                WriteAcknowledgementEvent { packet: p.duplicate(), ack: a.clone() },
            ),
            _ => None,
        }
    }
}

/// The first event of `evs` that acknowledges packet `p`.
pub open spec fn first_ack_for(p: Packet, evs: Seq<IbcEvent>) -> Option<WriteAcknowledgementEvent>
    decreases evs.len(),
{
    if evs.len() == 0 {
        None
    } else {
        match WriteAcknowledgementEvent::of_event(evs[0]) {
            Some(a) if same_packet(a.packet, p) => Some(a),
            _ => first_ack_for(p, evs.drop_first()),
        }
    }
}

/// Searches the events of a receive transaction for the acknowledgement of
/// `packet`. Its absence is no error: the packet may have been received
/// before.
pub fn find_write_ack(packet: &Packet, events: &Vec<IbcEvent>) -> (r: Option<
    WriteAcknowledgementEvent,
>)
    ensures
        r == first_ack_for(*packet, events@),
{
    let ghost all = events@;
    assert(all.subrange(0, all.len() as int) =~= all);
    let mut i: usize = 0;
    while i < events.len()
        invariant
            i <= events.len(),
            all == events@,
            first_ack_for(*packet, all) == first_ack_for(
                *packet,
                all.subrange(i as int, all.len() as int),
            ),
        decreases events.len() - i,
    {
        assert(all.subrange(i as int, all.len() as int).drop_first() =~= all.subrange(
            i + 1,
            all.len() as int,
        ));
        match WriteAcknowledgementEvent::try_from_event(&events[i]) {
            Some(a) => {
                if is_same_packet(&a.packet, packet) {
                    return Some(a);
                }
            },
            None => {},
        }
        i = i + 1;
    }
    None
}

/// Where the relay of one packet to its destination stands.
#[derive(Clone, Copy, Debug, PartialEq, Eq, Structural)]
pub enum ReceiveState {
    /// Waiting to learn whether the destination already received the packet.
    Detected,
    /// Waiting for the receive message to be built.
    Checked,
    /// The message was built and handed over for submission.
    Submitted,
    /// Finished: with an acknowledgement, without one, or with an error.
    Finished,
}

/// What the driver reports back.
pub enum ReceiveEvent {
    /// Whether the destination chain already received the packet.
    ReceivedFlag(bool),
    /// The receive message was built.
    MessageBuilt,
    /// The transaction holding the message was committed with these events.
    Committed(Vec<IbcEvent>),
    /// The last action failed.
    Failed(RelayError),
}

/// What the driver must do next.
#[derive(Debug, PartialEq, Eq)]
pub enum ReceiveAction {
    /// Ask the destination whether it already received the packet.
    QueryReceived,
    /// Build the receive message from the packet and the source height.
    BuildMessage,
    /// Send the built message to the destination.
    Submit,
    /// Return this to the caller: the acknowledgement, if one was written.
    Complete(Option<WriteAcknowledgementEvent>),
    /// Return this error to the caller.
    Fail(RelayError),
    /// Nothing: the relay is over.
    Idle,
}

/// The step the receive machine takes for packet `p` from state `s` on event
/// `e`. The machine never builds a message for a packet the destination
/// already received.
pub open spec fn receive_step(p: Packet, s: ReceiveState, e: ReceiveEvent) -> (
    ReceiveState,
    ReceiveAction,
) {
    match (s, e) {
        (ReceiveState::Detected, ReceiveEvent::ReceivedFlag(true)) => (
            ReceiveState::Finished,
            ReceiveAction::Complete(None),
        ),
        (ReceiveState::Detected, ReceiveEvent::ReceivedFlag(false)) => (
            ReceiveState::Checked,
            ReceiveAction::BuildMessage,
        ),
        (ReceiveState::Checked, ReceiveEvent::MessageBuilt) => (
            ReceiveState::Submitted,
            ReceiveAction::Submit,
        ),
        (ReceiveState::Submitted, ReceiveEvent::Committed(evs)) => (
            ReceiveState::Finished,
            ReceiveAction::Complete(first_ack_for(p, evs@)),
        ),
        (ReceiveState::Finished, _) => (ReceiveState::Finished, ReceiveAction::Idle),
        (_, ReceiveEvent::Failed(err)) => (ReceiveState::Finished, ReceiveAction::Fail(err)),
        (st, _) => (st, ReceiveAction::Idle),
    }
}

/// The relay of one received-packet message, from detection to completion.
pub struct BaseReceivePacketRelayer {
    pub packet: Packet,
    pub source_height: Height,
    pub state: ReceiveState,
}

impl BaseReceivePacketRelayer {
    /// Starts relaying `packet`, committed on the source at `source_height`;
    /// the first action is always the check whether it was received already.
    pub fn new(packet: Packet, source_height: Height) -> (r: (BaseReceivePacketRelayer, ReceiveAction))
        ensures
            r.0.packet == packet,
            r.0.source_height == source_height,
            r.0.state == ReceiveState::Detected,
            r.1 == ReceiveAction::QueryReceived,
    {
        (
            BaseReceivePacketRelayer { packet, source_height, state: ReceiveState::Detected },
            ReceiveAction::QueryReceived,
        )
    }

    /// Takes the driver's report and returns the next action.
    pub fn relay_receive_packet(&mut self, event: ReceiveEvent) -> (r: ReceiveAction)
        ensures
            final(self).packet == old(self).packet,
            final(self).source_height == old(self).source_height,
            (final(self).state, r) == receive_step(old(self).packet, old(self).state, event),
    {
        let (s, a) = match (self.state, event) {
            (ReceiveState::Detected, ReceiveEvent::ReceivedFlag(true)) => (
                ReceiveState::Finished,
                ReceiveAction::Complete(None),
            ),
            (ReceiveState::Detected, ReceiveEvent::ReceivedFlag(false)) => (
                ReceiveState::Checked,
                ReceiveAction::BuildMessage,
            ),
            (ReceiveState::Checked, ReceiveEvent::MessageBuilt) => (
                ReceiveState::Submitted,
                ReceiveAction::Submit,
            ),
            (ReceiveState::Submitted, ReceiveEvent::Committed(evs)) => (
                ReceiveState::Finished,
                ReceiveAction::Complete(find_write_ack(&self.packet, &evs)),
            ),
            (ReceiveState::Finished, _) => (ReceiveState::Finished, ReceiveAction::Idle),
            (_, ReceiveEvent::Failed(err)) => (ReceiveState::Finished, ReceiveAction::Fail(err)),
            (st, _) => (st, ReceiveAction::Idle),
        };
        self.state = s;
        a
    }
}

/// The actions the receive machine takes for packet `p` from state `s` on
/// the events `evs`, in order.
pub open spec fn receive_run(p: Packet, s: ReceiveState, evs: Seq<ReceiveEvent>) -> Seq<
    ReceiveAction,
>
    decreases evs.len(),
{
    if evs.len() == 0 {
        Seq::empty()
    } else {
        let (s2, a) = receive_step(p, s, evs[0]);
        seq![a] + receive_run(p, s2, evs.drop_first())
    }
}

proof fn lemma_finished_stays_idle(p: Packet, evs: Seq<ReceiveEvent>)
    ensures
        forall|i: int|
            0 <= i < evs.len() ==> #[trigger] receive_run(p, ReceiveState::Finished, evs)[i]
                == ReceiveAction::Idle,
        receive_run(p, ReceiveState::Finished, evs).len() == evs.len(),
    decreases evs.len(),
{
    if evs.len() > 0 {
        lemma_finished_stays_idle(p, evs.drop_first());
        let rest = receive_run(p, ReceiveState::Finished, evs.drop_first());
        assert forall|i: int| 0 <= i < evs.len() implies #[trigger] receive_run(
            p,
            ReceiveState::Finished,
            evs,
        )[i] == ReceiveAction::Idle by {
            if i > 0 {
                assert(receive_run(p, ReceiveState::Finished, evs)[i] == rest[i - 1]);
            }
        }
    }
}

/// A packet that the destination already received is never relayed again:
/// whatever the driver reports afterwards, the relay completes at once with
/// no acknowledgement and no error, and it never builds or submits a message.
pub proof fn lemma_received_packet_not_relayed(p: Packet, evs: Seq<ReceiveEvent>)
    requires
        evs.len() >= 1,
        evs[0] == ReceiveEvent::ReceivedFlag(true),
    ensures
        receive_run(p, ReceiveState::Detected, evs)[0] == ReceiveAction::Complete(None),
        forall|i: int|
            0 <= i < evs.len() ==> {
                let a = #[trigger] receive_run(p, ReceiveState::Detected, evs)[i];
                a != ReceiveAction::BuildMessage && a != ReceiveAction::Submit && !(a is Fail)
            },
{
    lemma_finished_stays_idle(p, evs.drop_first());
    let rest = receive_run(p, ReceiveState::Finished, evs.drop_first());
    assert forall|i: int| 0 <= i < evs.len() implies {
        let a = #[trigger] receive_run(p, ReceiveState::Detected, evs)[i];
        a != ReceiveAction::BuildMessage && a != ReceiveAction::Submit && !(a is Fail)
    } by {
        if i > 0 {
            assert(receive_run(p, ReceiveState::Detected, evs)[i] == rest[i - 1]);
        }
    }
}

/// The acknowledgement to relay back to the source for `packet`; without an
/// acknowledgement of that very packet there is nothing to prove against.
pub fn acknowledgement_to_relay(packet: &Packet, ack: Option<WriteAcknowledgementEvent>) -> (r:
    Result<WriteAcknowledgementEvent, RelayError>)
    ensures
        match ack {
            Some(a) if same_packet(a.packet, *packet) => r == Ok::<_, RelayError>(a),
            _ => r == Err::<WriteAcknowledgementEvent, _>(RelayError::MissingAcknowledgement),
        },
{
    match ack {
        Some(a) => if is_same_packet(&a.packet, packet) {
            Ok(a)
        } else {
            Err(RelayError::MissingAcknowledgement)
        },
        None => Err(RelayError::MissingAcknowledgement),
    }
}

/// A zero timeout height or timestamp means no timeout of that kind.
pub open spec fn timed_out(p: Packet, dst_height: Height, dst_timestamp: u64) -> bool {
    let th = p.timeout_height;
    (!(th.revision_number == 0 && th.revision_height == 0) && th.le(dst_height)) || (
    p.timeout_timestamp != 0 && p.timeout_timestamp <= dst_timestamp)
}

/// Whether the destination, at `dst_height` and `dst_timestamp`, is past the
/// packet's timeout height or timestamp.
pub fn has_timed_out(p: &Packet, dst_height: &Height, dst_timestamp: u64) -> (r: bool)
    ensures
        r == timed_out(*p, *dst_height, dst_timestamp),
{
    let th = &p.timeout_height;
    (!(th.revision_number == 0 && th.revision_height == 0) && th.is_le(dst_height)) || (
    p.timeout_timestamp != 0 && p.timeout_timestamp <= dst_timestamp)
}

/// What to do about a packet that may have timed out.
#[derive(Clone, Copy, Debug, PartialEq, Eq, Structural)]
pub enum TimeoutDecision {
    /// The destination received it: there is nothing to time out.
    AlreadyReceived,
    /// Its destination channel closed: send a timeout-on-close message.
    TimeoutOnClose,
    /// It passed its deadline: send a timeout message.
    Timeout,
    /// Its deadline has not passed yet.
    NotYet,
}

/// Decides whether a packet not yet received can be timed out, given the
/// state of the destination chain.
pub fn timeout_decision(
    p: &Packet,
    received: bool,
    channel_closed: bool,
    dst_height: &Height,
    dst_timestamp: u64,
) -> (r: TimeoutDecision)
    ensures
        r == (if received {
            TimeoutDecision::AlreadyReceived
        } else if channel_closed {
            TimeoutDecision::TimeoutOnClose
        } else if timed_out(*p, *dst_height, dst_timestamp) {
            TimeoutDecision::Timeout
        } else {
            TimeoutDecision::NotYet
        }),
{
    if received {
        TimeoutDecision::AlreadyReceived
    } else if channel_closed {
        TimeoutDecision::TimeoutOnClose
    } else if has_timed_out(p, dst_height, dst_timestamp) {
        TimeoutDecision::Timeout
    } else {
        TimeoutDecision::NotYet
    }
}

} // verus!
