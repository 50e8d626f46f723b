//! The echo task: shows the message that a frame from the sender names and sends the frame
//! back.

use vstd::prelude::*;

use crate::frame::{TxOptions, HDR};
use crate::messages::{MsgIndex, MESSAGE_COUNT};
use crate::role::Role;

verus! {

/// What the task does with a received frame. Either way it receives the next one then.
#[derive(Clone, Copy, Debug)]
pub enum EchoAction {
    /// Nothing: the frame is not from the sender.
    Discard,
    /// Send the frame back, as it now is.
    Transmit(TxOptions),
}

/// Whether `mpdu` comes from the sender.
pub open spec fn is_request(mpdu: Seq<u8>) -> bool {
    crate::frame::sent_by(mpdu, Role::Sender.mac()@)
}

/// The message index that `mpdu` carries: its first payload byte, counted round the table.
/// A frame without payload carries none.
pub open spec fn carried_index(mpdu: Seq<u8>) -> Option<u32> {
    if mpdu.len() > HDR {
        Some(mpdu[HDR as int] as u32 % MESSAGE_COUNT)
    } else {
        None
    }
}

/// The echo of `mpdu`: the same frame from the receiver to the sender.
pub open spec fn echo_of(mpdu: Seq<u8>) -> Seq<u8> {
    crate::frame::readdressed(mpdu, Role::Sender.mac()@, Role::Receiver.mac()@)
}

/// The message index that `mpdu` carries, if any.
pub fn read_index(mpdu: &[u8]) -> (index: Option<u32>)
    ensures
        index == carried_index(mpdu@),
{
    if mpdu.len() > HDR {
        Some(mpdu[HDR] as u32 % MESSAGE_COUNT)
    } else {
        None
    }
}

/// A step of the echo task, for a received frame. `shown` is the index of the message on this
/// board's screen.
///
/// A frame from the sender puts its message on show and becomes its own echo. Frames from
/// others change nothing.
pub fn echo_step(mpdu: &mut [u8], shown: &mut MsgIndex) -> (action: EchoAction)
    ensures
        if is_request(old(mpdu)@) {
            &&& final(shown)@ == (match carried_index(old(mpdu)@) {
                Some(index) => index,
                None => old(shown)@,
            })
            &&& final(mpdu)@ == echo_of(old(mpdu)@)
            &&& action == EchoAction::Transmit(crate::frame::usual_options())
        } else {
            &&& final(shown)@ == old(shown)@
            &&& final(mpdu)@ == old(mpdu)@
            &&& action == EchoAction::Discard
        },
{
    let peer: [u8; 6] = Role::Receiver.peer_mac();
    if !crate::frame::is_sent_by(mpdu, &peer) {
        return EchoAction::Discard;
    }
    match read_index(mpdu) {
        Some(index) => {
            shown.set(index);
        },
        None => {},
    }
    crate::frame::readdress(mpdu, &peer, &Role::Receiver.my_mac());
    EchoAction::Transmit(TxOptions::usual())
}

/// A frame is echoed whole, whatever its length: the echo goes from the receiver to the
/// sender, is as long as the frame, and agrees with it outside the two addresses.
pub proof fn law_echo_is_whole(mpdu: Seq<u8>)
    requires
        is_request(mpdu),
    ensures
        echo_of(mpdu).len() == mpdu.len(),
        crate::frame::destination(echo_of(mpdu)) == Role::Sender.mac()@,
        crate::frame::source(echo_of(mpdu)) == Role::Receiver.mac()@,
        forall|i: int|
            0 <= i < 4 || 16 <= i < mpdu.len() ==> #[trigger] echo_of(mpdu)[i] == mpdu[i],
{
    crate::frame::law_readdressed_fields(mpdu, Role::Sender.mac()@, Role::Receiver.mac()@);
}

/// The echo of a frame that the sender addressed to the receiver has its destination and
/// source swapped.
pub proof fn law_echo_swaps_addresses(mpdu: Seq<u8>)
    requires
        is_request(mpdu),
        crate::frame::destination(mpdu) == Role::Receiver.mac()@,
    ensures
        crate::frame::destination(echo_of(mpdu)) == crate::frame::source(mpdu),
        crate::frame::source(echo_of(mpdu)) == crate::frame::destination(mpdu),
{
    law_echo_is_whole(mpdu);
}

/// The sender takes every echo for one, and the echo carries the index of the frame. So it is
/// of the echo as it arrives, whatever number the radio gives it; a frame shorter than the
/// header has no place for one.
pub proof fn law_echo_is_heard(mpdu: Seq<u8>)
    requires
        is_request(mpdu),
    ensures
        crate::sender::is_echo(echo_of(mpdu)),
        carried_index(echo_of(mpdu)) == carried_index(mpdu),
        forall|number: (u8, u8)|
            mpdu.len() >= HDR ==> crate::sender::is_echo(
                #[trigger] crate::frame::numbered(echo_of(mpdu), number),
            ),
        forall|number: (u8, u8)|
            mpdu.len() >= HDR ==> carried_index(
                #[trigger] crate::frame::numbered(echo_of(mpdu), number),
            ) == carried_index(mpdu),
{
    law_echo_is_whole(mpdu);
    if mpdu.len() >= HDR {
        assert forall|number: (u8, u8)|
            {
                &&& crate::sender::is_echo(
                    #[trigger] crate::frame::numbered(echo_of(mpdu), number),
                )
                &&& carried_index(crate::frame::numbered(echo_of(mpdu), number)) == carried_index(
                    mpdu,
                )
            } by {
            crate::frame::law_numbered_fields(echo_of(mpdu), number);
        }
    }
}

/// The receiver acts on the sender's frames alone: a frame is a request if and only if it has
/// at least 16 octets and octets 10 to 15 are 02:00:00:00:00:01, whatever its other octets.
pub proof fn law_acts_on_the_sender_alone(mpdu: Seq<u8>)
    ensures
        is_request(mpdu) <==> {
            &&& mpdu.len() >= 16
            &&& mpdu[10] == 0x02
            &&& mpdu[11] == 0
            &&& mpdu[12] == 0
            &&& mpdu[13] == 0
            &&& mpdu[14] == 0
            &&& mpdu[15] == 0x01
        },
{
    crate::role::law_identities(Role::Sender);
    crate::frame::law_source_decides(mpdu, Role::Sender.mac()@);
}

/// The index that a frame carries is octet 24 modulo 8, and only a frame that has this octet
/// carries one.
pub proof fn law_index_octet(mpdu: Seq<u8>)
    ensures
        mpdu.len() > 24 ==> carried_index(mpdu) == Some((mpdu[24] % 8) as u32),
        mpdu.len() <= 24 ==> carried_index(mpdu) is None,
{
}

/// The echo of a frame, octet by octet: to 02:00:00:00:00:01, from 02:00:00:00:00:02, and
/// everywhere else what the frame holds.
pub proof fn law_echo_octets(mpdu: Seq<u8>)
    requires
        mpdu.len() >= 16,
    ensures
        ({
            let echo = echo_of(mpdu);
            &&& echo.len() == mpdu.len()
            &&& echo[4] == 0x02 && echo[5] == 0 && echo[6] == 0 && echo[7] == 0
            &&& echo[8] == 0 && echo[9] == 0x01
            &&& echo[10] == 0x02 && echo[11] == 0 && echo[12] == 0 && echo[13] == 0
            &&& echo[14] == 0 && echo[15] == 0x02
            &&& forall|i: int|
                0 <= i < 4 || 16 <= i < mpdu.len() ==> #[trigger] echo[i] == mpdu[i]
        }),
{
    crate::role::law_identities(Role::Sender);
    crate::role::law_identities(Role::Receiver);
    crate::frame::law_readdressed_octets(mpdu, Role::Sender.mac()@, Role::Receiver.mac()@);
}

} // verus!
