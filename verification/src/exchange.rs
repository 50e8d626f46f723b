//! What the two boards achieve together.
//!
//! The radio numbers the frames that it sends, so a frame arrives with another SeqCtrl than it
//! was built with. The laws hold for every number.

use vstd::prelude::*;

use crate::role::Role;
use crate::sender::SenderInput;

verus! {

/// The frame of round `counter` as it arrives under `number`.
pub open spec fn arriving_request(counter: u32, number: (u8, u8)) -> Seq<u8> {
    crate::frame::numbered(crate::sender::round_frame(counter), number)
}

/// The echo of `mpdu` as it arrives under `number`.
pub open spec fn arriving_echo(mpdu: Seq<u8>, number: (u8, u8)) -> Seq<u8> {
    crate::frame::numbered(crate::echo::echo_of(mpdu), number)
}

/// A round of the sender comes full circle, whatever numbers the radios give to its two
/// frames: the receiver takes the frame for a request and reads the index of the round from
/// it, the echo goes from the receiver to the sender with the same payload, and the sender
/// takes it for the echo.
pub proof fn law_round_trip(counter: u32, out: (u8, u8), back: (u8, u8))
    ensures
        ({
            let mpdu = arriving_request(counter, out);
            let echo = arriving_echo(mpdu, back);
            &&& crate::echo::is_request(mpdu)
            &&& crate::echo::carried_index(mpdu) == Some(crate::sender::round_index(counter))
            &&& crate::frame::destination(echo) == Role::Sender.mac()@
            &&& crate::frame::source(echo) == Role::Receiver.mac()@
            &&& crate::frame::body(echo) == crate::frame::body(crate::sender::round_frame(counter))
            &&& crate::sender::is_echo(echo)
        }),
{
    let built = crate::sender::round_frame(counter);
    let mpdu = arriving_request(counter, out);
    let payload = seq![crate::sender::round_index(counter) as u8];
    crate::frame::law_data_frame_fields(Role::Receiver.mac()@, Role::Sender.mac()@, payload);
    crate::frame::law_numbered_fields(built, out);
    assert(mpdu[24] == crate::frame::body(mpdu)[0]);
    crate::echo::law_echo_is_whole(mpdu);
    assert(crate::frame::body(crate::echo::echo_of(mpdu)) == crate::frame::body(mpdu));
    crate::frame::law_numbered_fields(crate::echo::echo_of(mpdu), back);
}

/// The screens are in sync: the message index that the receiver reads from a frame of the
/// sender, as it arrives, stands for the message that the sender shows in that round.
pub proof fn law_screens_in_sync(counter: u32, out: (u8, u8))
    ensures
        match crate::echo::carried_index(arriving_request(counter, out)) {
            Some(index) => {
                &&& index == crate::sender::round_index(counter)
                &&& crate::display::screen_for(Role::Receiver, index).message
                    == crate::display::screen_for(
                    Role::Sender,
                    crate::sender::round_index(counter),
                ).message
            },
            None => false,
        },
{
    law_round_trip(counter, out, (0, 0));
}

/// The two boards: the round of the sender, and the indices of the messages on show.
pub struct Exchange {
    pub counter: u32,
    pub on_sender: u32,
    pub on_receiver: u32,
}

impl Exchange {
    /// After the steps of a round in which no frame is lost: the sender sends, the receiver
    /// gets the frame under the number `out` and answers as it decides, the sender gets the
    /// answer under the number `back`.
    pub open spec fn after_round(self, out: (u8, u8), back: (u8, u8)) -> Exchange {
        let mpdu = arriving_request(self.counter, out);
        let answered = crate::echo::is_request(mpdu);
        Exchange {
            counter: if answered {
                crate::sender::round_after(
                    self.counter,
                    SenderInput::Received(arriving_echo(mpdu, back)),
                )
            } else {
                self.counter
            },
            on_sender: crate::sender::shown_after(
                self.counter,
                SenderInput::Resumed,
                self.on_sender,
            ),
            on_receiver: match crate::echo::carried_index(mpdu) {
                Some(index) if answered => index,
                _ => self.on_receiver,
            },
        }
    }

    /// After `rounds` such rounds, where the frames of round `k` are numbered `out(k)` and
    /// `back(k)`.
    pub open spec fn after_rounds(
        self,
        out: spec_fn(nat) -> (u8, u8),
        back: spec_fn(nat) -> (u8, u8),
        rounds: nat,
    ) -> Exchange
        decreases rounds,
    {
        if rounds == 0 {
            self
        } else {
            let k = (rounds - 1) as nat;
            self.after_rounds(out, back, k).after_round(out(k), back(k))
        }
    }
}

/// While no frame is lost every round is echoed, and after each one both boards show its
/// message, whatever numbers the radios give: after `rounds` rounds the sender has moved on by
/// as many, and both indices are that of the last round.
pub proof fn law_rounds_keep_in_step(
    start: Exchange,
    out: spec_fn(nat) -> (u8, u8),
    back: spec_fn(nat) -> (u8, u8),
    rounds: nat,
)
    requires
        rounds > 0,
    ensures
        ({
            let end = start.after_rounds(out, back, rounds);
            let last = crate::clock::count_after(start.counter, (rounds - 1) as nat);
            &&& end.counter == crate::clock::count_after(start.counter, rounds)
            &&& end.on_sender == crate::sender::round_index(last)
            &&& end.on_receiver == end.on_sender
        }),
    decreases rounds,
{
    let k = (rounds - 1) as nat;
    let before = start.after_rounds(out, back, k);
    if k > 0 {
        law_rounds_keep_in_step(start, out, back, k);
    }
    law_round_trip(before.counter, out(k), back(k));
    crate::clock::law_ticks_add_up(start.counter, k, 1);
    assert(before.counter == crate::clock::count_after(start.counter, k));
}

/// No board takes its own frames for the other's, neither as built nor as they go on the air.
pub proof fn law_own_frames_are_ignored(counter: u32, mpdu: Seq<u8>, number: (u8, u8))
    requires
        crate::echo::is_request(mpdu),
    ensures
        !crate::sender::is_echo(crate::sender::round_frame(counter)),
        !crate::sender::is_echo(arriving_request(counter, number)),
        !crate::echo::is_request(crate::echo::echo_of(mpdu)),
        mpdu.len() >= crate::frame::HDR ==> !crate::echo::is_request(arriving_echo(mpdu, number)),
{
    let built = crate::sender::round_frame(counter);
    let payload = seq![crate::sender::round_index(counter) as u8];
    crate::frame::law_data_frame_fields(Role::Receiver.mac()@, Role::Sender.mac()@, payload);
    crate::frame::law_numbered_fields(built, number);
    crate::echo::law_echo_is_whole(mpdu);
    if mpdu.len() >= crate::frame::HDR {
        crate::frame::law_numbered_fields(crate::echo::echo_of(mpdu), number);
    }
    crate::role::law_addresses(Role::Sender);
}

} // verus!
