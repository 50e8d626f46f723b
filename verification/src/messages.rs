//! The messages that both boards know, and the index of the one to show.

use vstd::prelude::*;

verus! {

/// Messages, in the order in which they are sent. Both boards hold the same table, so an
/// index is enough to name one.
pub const MESSAGES: [&'static str; 8] = [
    "Hello!",
    "How are you?",
    "Rust on ESP32",
    "No OS needed",
    "WiFi works!",
    "Open MAC ftw",
    "Ping!",
    "Reticulum?",
];

/// Length of the message table.
pub const MESSAGE_COUNT: u32 = 8;

/// The message that an index stands for, counted round the table.
pub open spec fn message_for(index: u32) -> &'static str {
    MESSAGES@[index as int % MESSAGE_COUNT as int]
}

/// The message that `index` stands for, counted round the table.
pub fn message(index: u32) -> (text: &'static str)
    ensures
        text == message_for(index),
{
    let at: u32 = index % MESSAGE_COUNT;
    MESSAGES[at as usize]
}

/// Index of the message that the screen is to show.
pub struct MsgIndex {
    index: u32,
}

impl View for MsgIndex {
    type V = u32;

    closed spec fn view(&self) -> u32 {
        self.index
    }
}

/// An index into the table, or its length while no message has been sent or received.
pub open spec fn valid_index(index: u32) -> bool {
    index <= MESSAGE_COUNT
}

impl MsgIndex {
    #[verifier::type_invariant]
    spec fn wf(self) -> bool {
        valid_index(self.index)
    }

    /// No message yet: the index lies just out of range.
    pub fn new() -> (index: MsgIndex)
        ensures
            index@ == MESSAGE_COUNT,
    {
        MsgIndex { index: MESSAGE_COUNT }
    }

    /// The current index.
    pub fn get(&self) -> (index: u32)
        ensures
            index == self@,
            valid_index(index),
    {
        proof {
            use_type_invariant(self);
        }
        self.index
    }

    /// Puts another message on show.
    pub fn set(&mut self, index: u32)
        requires
            index < MESSAGE_COUNT,
        ensures
            final(self)@ == index,
    {
        self.index = index;
    }
}

/// Every index names the message at its place in the table, counted round its eight entries.
pub proof fn law_messages(index: u32)
    ensures
        MESSAGES@.len() == 8,
        message_for(index) == MESSAGES@[index as int % 8],
        index % 8 == 0 ==> message_for(index)@ == "Hello!"@,
        index % 8 == 1 ==> message_for(index)@ == "How are you?"@,
        index % 8 == 2 ==> message_for(index)@ == "Rust on ESP32"@,
        index % 8 == 3 ==> message_for(index)@ == "No OS needed"@,
        index % 8 == 4 ==> message_for(index)@ == "WiFi works!"@,
        index % 8 == 5 ==> message_for(index)@ == "Open MAC ftw"@,
        index % 8 == 6 ==> message_for(index)@ == "Ping!"@,
        index % 8 == 7 ==> message_for(index)@ == "Reticulum?"@,
{
}

/// The valid indices are those of the eight messages and the one just behind them, which
/// stands for no message.
pub proof fn law_valid_indices(index: u32)
    ensures
        valid_index(index) <==> index <= 8,
        MESSAGE_COUNT == 8,
{
}

} // verus!
