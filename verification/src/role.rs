//! The two boards and their hardware addresses.

use vstd::prelude::*;

verus! {

/// Radio channel of both boards.
pub const WIFI_CHANNEL: u8 = 1;

/// Locally administered address of the sender.
pub const SENDER_MAC: [u8; 6] = [0x02, 0x00, 0x00, 0x00, 0x00, 0x01];

/// Locally administered address of the receiver.
pub const RECEIVER_MAC: [u8; 6] = [0x02, 0x00, 0x00, 0x00, 0x00, 0x02];

/// Which of the two boards a program runs on.
#[derive(Clone, Copy, Debug)]
pub enum Role {
    /// Sends messages and waits for their echo.
    Sender,
    /// Shows received messages and echoes them.
    Receiver,
}

impl Role {
    /// The other board.
    pub open spec fn other(self) -> Role {
        match self {
            Role::Sender => Role::Receiver,
            Role::Receiver => Role::Sender,
        }
    }

    /// The address of this board.
    pub open spec fn mac(self) -> [u8; 6] {
        match self {
            Role::Sender => SENDER_MAC,
            Role::Receiver => RECEIVER_MAC,
        }
    }

    /// What this board calls itself on its screen.
    pub open spec fn title(self) -> &'static str {
        match self {
            Role::Sender => "sender:",
            Role::Receiver => "receiver:",
        }
    }

    /// The address of this board.
    pub fn my_mac(self) -> (mac: [u8; 6])
        ensures
            mac == self.mac(),
    {
        match self {
            Role::Sender => SENDER_MAC,
            Role::Receiver => RECEIVER_MAC,
        }
    }

    /// The address of the other board.
    pub fn peer_mac(self) -> (mac: [u8; 6])
        ensures
            mac == self.other().mac(),
    {
        match self {
            Role::Sender => RECEIVER_MAC,
            Role::Receiver => SENDER_MAC,
        }
    }

    /// The first line on the screen of this board.
    pub fn name(self) -> (name: &'static str)
        ensures
            name == self.title(),
    {
        match self {
            Role::Sender => "sender:",
            Role::Receiver => "receiver:",
        }
    }
}

/// The two boards are each other's peer, under different addresses, which are unicast and
/// locally administered (the two low bits of the first octet).
pub proof fn law_addresses(role: Role)
    ensures
        role.other().other() == role,
        role.mac()@ != role.other().mac()@,
        role.mac()@.len() == 6,
        role.mac()@[0] & 0x03 == 0x02,
{
    assert(role.mac()@[5] != role.other().mac()@[5]);
    assert(0x02u8 & 0x03 == 0x02) by (bit_vector);
}

/// Who the boards are: their addresses, octet by octet, their titles, and who is whose peer.
pub proof fn law_identities(role: Role)
    ensures
        role is Sender ==> role.mac()@ == seq![0x02u8, 0u8, 0u8, 0u8, 0u8, 0x01u8],
        role is Receiver ==> role.mac()@ == seq![0x02u8, 0u8, 0u8, 0u8, 0u8, 0x02u8],
        role is Sender ==> role.title()@ == "sender:"@ && role.other() is Receiver,
        role is Receiver ==> role.title()@ == "receiver:"@ && role.other() is Sender,
        WIFI_CHANNEL == 1,
{
}

} // verus!
