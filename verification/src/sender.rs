//! The sender task: cycles through the messages, transmits the index of one each round,
//! waits for its echo and pauses before the next.

use vstd::prelude::*;

use crate::frame::{FrameBuf, TxRequest};
use crate::messages::{MsgIndex, MESSAGE_COUNT};
use crate::role::Role;

verus! {

/// Ticks between an echo and the next message.
pub const SENDER_PAUSE: u32 = 10;

/// What has happened since the last step.
#[derive(Clone, Copy, Debug)]
pub enum SenderEvent<'a> {
    /// The task starts, or its pause is over.
    Resumed,
    /// The radio has sent the frame, or given up on it.
    Sent,
    /// The radio has received this frame.
    Received(&'a [u8]),
}

/// What the task does next.
#[derive(Clone, Copy, Debug)]
pub enum SenderAction {
    /// Send a frame.
    Transmit(TxRequest),
    /// Receive a frame.
    Receive,
    /// Wait for this many ticks.
    Pause(u32),
}

/// Index of the message that is sent in round `counter`.
pub open spec fn round_index(counter: u32) -> u32 {
    counter % MESSAGE_COUNT
}

/// The frame that is sent in round `counter`: its payload is the message index.
pub open spec fn round_frame(counter: u32) -> Seq<u8> {
    crate::frame::data_frame(
        Role::Receiver.mac()@,
        Role::Sender.mac()@,
        seq![round_index(counter) as u8],
    )
}

/// Whether `mpdu` ends the wait for the echo: any frame from the receiver does.
pub open spec fn is_echo(mpdu: Seq<u8>) -> bool {
    crate::frame::sent_by(mpdu, Role::Receiver.mac()@)
}

/// A [`SenderEvent`], with the frame as a sequence.
pub enum SenderInput {
    Resumed,
    Sent,
    Received(Seq<u8>),
}

/// A [`SenderAction`], with the frame as a sequence.
pub enum SenderOutput {
    Transmit(Seq<u8>),
    Receive,
    Pause(u32),
}

impl<'a> View for SenderEvent<'a> {
    type V = SenderInput;

    open spec fn view(&self) -> SenderInput {
        match self {
            SenderEvent::Resumed => SenderInput::Resumed,
            SenderEvent::Sent => SenderInput::Sent,
            SenderEvent::Received(mpdu) => SenderInput::Received(mpdu@),
        }
    }
}

impl SenderAction {
    /// The action is what `output` says; a frame is sent in the usual way.
    pub open spec fn does(self, output: SenderOutput) -> bool {
        match output {
            SenderOutput::Transmit(mpdu) => self matches SenderAction::Transmit(request)
                && request.sends(mpdu),
            SenderOutput::Receive => self == SenderAction::Receive,
            SenderOutput::Pause(ticks) => self == SenderAction::Pause(ticks),
        }
    }
}

/// What a step in round `counter` asks for. A round begins by sending its frame; then frames
/// are received until the echo comes, and a pause follows.
pub open spec fn sender_output(counter: u32, input: SenderInput) -> SenderOutput {
    match input {
        SenderInput::Resumed => SenderOutput::Transmit(round_frame(counter)),
        SenderInput::Sent => SenderOutput::Receive,
        SenderInput::Received(mpdu) => if is_echo(mpdu) {
            SenderOutput::Pause(SENDER_PAUSE)
        } else {
            SenderOutput::Receive
        },
    }
}

/// The round after a step in round `counter`: the echo ends a round.
pub open spec fn round_after(counter: u32, input: SenderInput) -> u32 {
    match input {
        SenderInput::Received(mpdu) if is_echo(mpdu) => crate::clock::count_after(counter, 1),
        _ => counter,
    }
}

/// The index on show after a step in round `counter`: a round begins by showing its message.
pub open spec fn shown_after(counter: u32, input: SenderInput, shown: u32) -> u32 {
    match input {
        SenderInput::Resumed => round_index(counter),
        _ => shown,
    }
}

/// The sender task.
pub struct Sender {
    /// Rounds so far, modulo 2^32.
    pub counter: u32,
}

impl Sender {
    /// A task before its first round.
    pub fn new() -> (sender: Sender)
        ensures
            sender.counter == 0,
    {
        Sender { counter: 0 }
    }

    /// A step of the task. `shown` is the index of the message on this board's screen.
    ///
    /// Frames from others than the receiver change nothing.
    pub fn step(&mut self, event: SenderEvent<'_>, shown: &mut MsgIndex) -> (action: SenderAction)
        ensures
            final(shown)@ == shown_after(old(self).counter, event@, old(shown)@),
            final(self).counter == round_after(old(self).counter, event@),
            action.does(sender_output(old(self).counter, event@)),
    {
        match event {
            SenderEvent::Resumed => {
                let index: u32 = self.counter % MESSAGE_COUNT;
                shown.set(index);
                let payload: [u8; 1] = [index as u8];
                proof {
                    assert(payload@ == seq![round_index(self.counter) as u8]);
                }
                let frame = FrameBuf::data(
                    &Role::Sender.peer_mac(),
                    &Role::Sender.my_mac(),
                    &payload,
                );
                SenderAction::Transmit(TxRequest::new(frame))
            },
            SenderEvent::Sent => SenderAction::Receive,
            SenderEvent::Received(mpdu) => {
                if crate::frame::is_sent_by(mpdu, &Role::Sender.peer_mac()) {
                    self.counter = self.counter.wrapping_add(1);
                    SenderAction::Pause(SENDER_PAUSE)
                } else {
                    SenderAction::Receive
                }
            },
        }
    }
}

/// The rounds cycle through the messages: `rounds` rounds on, the index has moved on by as
/// much round the table, also where the counter starts over.
pub proof fn law_cycles_through_messages(counter: u32, rounds: nat)
    ensures
        round_index(crate::clock::count_after(counter, rounds)) == (round_index(counter) + rounds)
            % MESSAGE_COUNT as int,
{
}

/// Among any eight rounds in a row every message has its own.
pub proof fn law_every_message_has_its_round(counter: u32, index: u32)
    requires
        index < MESSAGE_COUNT,
    ensures
        exists|k: nat|
            k < MESSAGE_COUNT && #[trigger] round_index(crate::clock::count_after(counter, k))
                == index,
{
    let k = (index - round_index(counter)) % (MESSAGE_COUNT as int);
    law_cycles_through_messages(counter, k as nat);
    assert(round_index(crate::clock::count_after(counter, k as nat)) == index);
}

/// A sender task at work: the events come as its actions ask for them.
pub struct SenderRun {
    pub counter: u32,
    /// The action that is being carried out.
    pub doing: SenderOutput,
    /// Frames received so far.
    pub heard: nat,
}

impl SenderRun {
    /// The state when round `counter` begins, after `heard` frames.
    pub open spec fn round(counter: u32, heard: nat) -> SenderRun {
        SenderRun {
            counter,
            doing: sender_output(counter, SenderInput::Resumed),
            heard,
        }
    }

    /// The event that the action ends with, where `air` are the frames that arrive.
    pub open spec fn input(self, air: spec_fn(nat) -> Seq<u8>) -> SenderInput {
        match self.doing {
            SenderOutput::Transmit(_) => SenderInput::Sent,
            SenderOutput::Receive => SenderInput::Received(air(self.heard)),
            SenderOutput::Pause(_) => SenderInput::Resumed,
        }
    }

    /// The state after `steps` actions.
    pub open spec fn after(self, air: spec_fn(nat) -> Seq<u8>, steps: nat) -> SenderRun
        decreases steps,
    {
        if steps == 0 {
            self
        } else {
            let before = self.after(air, (steps - 1) as nat);
            SenderRun {
                counter: round_after(before.counter, before.input(air)),
                doing: sender_output(before.counter, before.input(air)),
                heard: if before.doing is Receive {
                    before.heard + 1
                } else {
                    before.heard
                },
            }
        }
    }
}

/// The sender waits for the echo: once its frame is sent, it receives on, in the same round,
/// as long as no frame comes from the receiver.
pub proof fn law_waits_for_the_echo(
    counter: u32,
    heard: nat,
    air: spec_fn(nat) -> Seq<u8>,
    others: nat,
)
    requires
        forall|j: nat| j < others ==> !is_echo(#[trigger] air(heard + j)),
    ensures
        SenderRun::round(counter, heard).after(air, others + 1) == (SenderRun {
            counter,
            doing: SenderOutput::Receive,
            heard: heard + others,
        }),
    decreases others,
{
    let round = SenderRun::round(counter, heard);
    if others == 0 {
        assert(round.after(air, 0) == round);
    } else {
        law_waits_for_the_echo(counter, heard, air, (others - 1) as nat);
        assert(!is_echo(air(heard + (others - 1) as nat)));
    }
}

/// Between two transmissions the sender accepts exactly one frame of the receiver, the first
/// that comes. A pause of `SENDER_PAUSE` ticks follows it, and then the next round begins.
pub proof fn law_one_echo_per_round(
    counter: u32,
    heard: nat,
    air: spec_fn(nat) -> Seq<u8>,
    others: nat,
)
    requires
        forall|j: nat| j < others ==> !is_echo(#[trigger] air(heard + j)),
        is_echo(air(heard + others)),
    ensures
        ({
            let round = SenderRun::round(counter, heard);
            let next = crate::clock::count_after(counter, 1);
            &&& round.doing == SenderOutput::Transmit(round_frame(counter))
            &&& forall|j: nat|
                1 <= j <= others + 1 ==> {
                    &&& (#[trigger] round.after(air, j)).doing == SenderOutput::Receive
                    &&& round.after(air, j).counter == counter
                }
            &&& round.after(air, others + 2) == (SenderRun {
                counter: next,
                doing: SenderOutput::Pause(SENDER_PAUSE),
                heard: heard + others + 1,
            })
            &&& round.after(air, others + 3) == SenderRun::round(next, heard + others + 1)
        }),
{
    let round = SenderRun::round(counter, heard);
    assert forall|j: nat| 1 <= j <= others + 1 implies {
        &&& (#[trigger] round.after(air, j)).doing == SenderOutput::Receive
        &&& round.after(air, j).counter == counter
    } by {
        law_waits_for_the_echo(counter, heard, air, (j - 1) as nat);
    }
    law_waits_for_the_echo(counter, heard, air, others);
    assert(round.after(air, others + 2).doing == SenderOutput::Pause(SENDER_PAUSE));
}

/// The frame of a round, octet by octet: frame control 08 00, duration 0, to the receiver
/// 02:00:00:00:00:02, from the sender 02:00:00:00:00:01, the receiver again as BSSID, sequence
/// control 0, and the round's place in the table as the one octet of payload.
pub proof fn law_round_frame_octets(counter: u32)
    ensures
        round_frame(counter) == seq![
            0x08u8, 0u8, 0u8, 0u8,
            0x02u8, 0u8, 0u8, 0u8, 0u8, 0x02u8,
            0x02u8, 0u8, 0u8, 0u8, 0u8, 0x01u8,
            0x02u8, 0u8, 0u8, 0u8, 0u8, 0x02u8,
            0u8, 0u8,
            (counter % 8) as u8,
        ],
        round_index(counter) == counter % 8,
{
    crate::role::law_identities(Role::Sender);
    crate::role::law_identities(Role::Receiver);
}

/// A round begins by transmitting the frame of the round, octet by octet to the receiver, and
/// by showing its message; the round does not change by it.
pub proof fn law_round_begins(
    counter: u32,
    shown: u32,
    event: SenderEvent<'_>,
    action: SenderAction,
)
    requires
        event is Resumed,
        action.does(sender_output(counter, event@)),
    ensures
        action matches SenderAction::Transmit(request) && {
            let octets = request.frame.bytes@;
            &&& request.frame.len == 25
            &&& octets[0] == 0x08 && octets[1] == 0 && octets[2] == 0 && octets[3] == 0
            &&& octets[4] == 0x02 && octets[5] == 0 && octets[6] == 0 && octets[7] == 0
            &&& octets[8] == 0 && octets[9] == 0x02
            &&& octets[10] == 0x02 && octets[11] == 0 && octets[12] == 0 && octets[13] == 0
            &&& octets[14] == 0 && octets[15] == 0x01
            &&& octets[16] == 0x02 && octets[17] == 0 && octets[18] == 0 && octets[19] == 0
            &&& octets[20] == 0 && octets[21] == 0x02
            &&& octets[22] == 0 && octets[23] == 0
            &&& octets[24] == counter % 8
            &&& request.options.rate is OneMbpsLong
            &&& request.options.override_seq_num
        },
        shown_after(counter, event@, shown) == counter % 8,
        round_after(counter, event@) == counter,
{
    law_round_frame_octets(counter);
    let mpdu = round_frame(counter);
    let request = action->Transmit_0;
    crate::frame::law_request_octets(request, mpdu);
    assert(forall|i: int| 0 <= i < 25 ==> #[trigger] request.frame.bytes@[i] == mpdu[i]);
}

/// After a transmission the sender listens, and nothing else changes.
pub proof fn law_listens_once_sent(
    counter: u32,
    shown: u32,
    event: SenderEvent<'_>,
    action: SenderAction,
)
    requires
        event is Sent,
        action.does(sender_output(counter, event@)),
    ensures
        action is Receive,
        shown_after(counter, event@, shown) == shown,
        round_after(counter, event@) == counter,
{
}

/// Only the receiver ends the wait: a received frame is followed by a pause of ten ticks and
/// the next round if and only if it has at least 16 octets and octets 10 to 15 are
/// 02:00:00:00:00:02. Any other frame, whatever else it holds, leaves the sender listening in
/// the same round.
pub proof fn law_only_the_receiver_ends_the_wait(
    counter: u32,
    shown: u32,
    event: SenderEvent<'_>,
    mpdu: Seq<u8>,
    action: SenderAction,
)
    requires
        event matches SenderEvent::Received(frame) && frame@ == mpdu,
        action.does(sender_output(counter, event@)),
    ensures
        ({
            let from_receiver = mpdu.len() >= 16 && mpdu[10] == 0x02 && mpdu[11] == 0 && mpdu[12]
                == 0 && mpdu[13] == 0 && mpdu[14] == 0 && mpdu[15] == 0x02;
            &&& is_echo(mpdu) <==> from_receiver
            &&& from_receiver ==> {
                &&& action == SenderAction::Pause(10)
                &&& counter < 0xFFFF_FFFF ==> round_after(counter, event@) == counter + 1
                &&& counter == 0xFFFF_FFFF ==> round_after(counter, event@) == 0
            }
            &&& !from_receiver ==> {
                &&& action is Receive
                &&& round_after(counter, event@) == counter
            }
        }),
        shown_after(counter, event@, shown) == shown,
{
    crate::role::law_identities(Role::Receiver);
    crate::frame::law_source_decides(mpdu, Role::Receiver.mac()@);
}

} // verus!
