//! The display task: redraws the screen whenever the message index has changed.

use vstd::prelude::*;

use crate::messages::MsgIndex;
use crate::role::Role;

verus! {

/// Ticks between two looks at the message index.
pub const DISPLAY_PAUSE: u32 = 1;

/// Stands for a screen that has not been drawn: no message index has this value.
pub const NEVER_DRAWN: u32 = 0xFFFF_FFFE;

/// A line of text with the place of its top left corner.
#[derive(Clone, Copy, Debug)]
pub struct TextLine {
    pub text: &'static str,
    pub x: i32,
    pub y: i32,
}

/// A screen: two lines on an empty background.
#[derive(Clone, Copy, Debug)]
pub struct Screen {
    pub title: TextLine,
    pub message: TextLine,
}

/// The screen of a board that shows the message with this index.
pub open spec fn screen_for(role: Role, index: u32) -> Screen {
    Screen {
        title: TextLine { text: role.title(), x: 0, y: 0 },
        message: TextLine { text: crate::messages::message_for(index), x: 0, y: 16 },
    }
}

/// What has happened since the last step.
#[derive(Clone, Copy, Debug)]
pub enum DisplayEvent {
    /// The task starts, or its pause is over.
    Resumed,
    /// The screen has been drawn.
    Drawn,
}

/// What the task does next.
#[derive(Clone, Copy, Debug)]
pub enum DisplayAction {
    /// Draw this screen.
    Draw(Screen),
    /// Wait for this many ticks.
    Pause(u32),
}

/// The index that is drawn after a step.
pub open spec fn drawn_after(last_drawn: u32, event: DisplayEvent, index: u32) -> u32 {
    match event {
        DisplayEvent::Resumed => index,
        DisplayEvent::Drawn => last_drawn,
    }
}

/// What a step asks for.
pub open spec fn display_action(
    role: Role,
    last_drawn: u32,
    event: DisplayEvent,
    index: u32,
) -> DisplayAction {
    match event {
        DisplayEvent::Resumed => if index != last_drawn {
            DisplayAction::Draw(screen_for(role, index))
        } else {
            DisplayAction::Pause(DISPLAY_PAUSE)
        },
        DisplayEvent::Drawn => DisplayAction::Pause(DISPLAY_PAUSE),
    }
}

/// The display task.
pub struct DisplayTask {
    pub role: Role,
    /// Index of the message on the screen.
    pub last_drawn: u32,
}

impl DisplayTask {
    /// A task that has drawn nothing yet.
    pub fn new(role: Role) -> (task: DisplayTask)
        ensures
            task.role == role,
            task.last_drawn == NEVER_DRAWN,
    {
        DisplayTask { role, last_drawn: NEVER_DRAWN }
    }

    /// A step of the task.
    pub fn step(&mut self, event: DisplayEvent, shown: &MsgIndex) -> (action: DisplayAction)
        ensures
            final(self).role == old(self).role,
            final(self).last_drawn == drawn_after(old(self).last_drawn, event, shown@),
            action == display_action(old(self).role, old(self).last_drawn, event, shown@),
    {
        match event {
            DisplayEvent::Resumed => {
                let index: u32 = shown.get();
                if index != self.last_drawn {
                    self.last_drawn = index;
                    let title = TextLine { text: self.role.name(), x: 0, y: 0 };
                    let message = TextLine { text: crate::messages::message(index), x: 0, y: 16 };
                    DisplayAction::Draw(Screen { title, message })
                } else {
                    DisplayAction::Pause(DISPLAY_PAUSE)
                }
            },
            DisplayEvent::Drawn => DisplayAction::Pause(DISPLAY_PAUSE),
        }
    }
}

/// The display draws on boot: its first step asks for a screen, whatever valid index it finds.
pub proof fn law_draws_on_boot(role: Role, index: u32)
    requires
        crate::messages::valid_index(index),
    ensures
        display_action(role, NEVER_DRAWN, DisplayEvent::Resumed, index) == DisplayAction::Draw(
            screen_for(role, index),
        ),
{
}

/// The display redraws exactly when the index has changed: after a look at `seen`, a look at
/// `index` asks for a screen, the one for `index`, if and only if the two differ.
pub proof fn law_redraws_on_change(role: Role, last_drawn: u32, seen: u32, index: u32)
    ensures
        ({
            let after = drawn_after(last_drawn, DisplayEvent::Resumed, seen);
            let action = display_action(role, after, DisplayEvent::Resumed, index);
            if index != seen {
                action == DisplayAction::Draw(screen_for(role, index))
            } else {
                action == DisplayAction::Pause(DISPLAY_PAUSE)
            }
        }),
{
}

/// What is on the screen: the name of the board in the top left corner, and below it, at
/// height 16, the message at the place `index % 8` of the table.
pub proof fn law_screen_shows(role: Role, index: u32)
    ensures
        ({
            let screen = screen_for(role, index);
            &&& role is Sender ==> screen.title.text@ == "sender:"@
            &&& role is Receiver ==> screen.title.text@ == "receiver:"@
            &&& screen.title.x == 0 && screen.title.y == 0
            &&& screen.message.text == crate::messages::MESSAGES@[index as int % 8]
            &&& screen.message.x == 0 && screen.message.y == 16
            &&& index % 8 == 0 ==> screen.message.text@ == "Hello!"@
            &&& index % 8 == 1 ==> screen.message.text@ == "How are you?"@
            &&& index % 8 == 2 ==> screen.message.text@ == "Rust on ESP32"@
            &&& index % 8 == 3 ==> screen.message.text@ == "No OS needed"@
            &&& index % 8 == 4 ==> screen.message.text@ == "WiFi works!"@
            &&& index % 8 == 5 ==> screen.message.text@ == "Open MAC ftw"@
            &&& index % 8 == 6 ==> screen.message.text@ == "Ping!"@
            &&& index % 8 == 7 ==> screen.message.text@ == "Reticulum?"@
        }),
{
    crate::messages::law_messages(index);
    crate::role::law_identities(role);
}

/// What a step of the display draws: a look at an index other than the one on the screen draws
/// the name of the board and the message of that index. All other steps draw nothing and pause
/// for one tick. After a look the index is taken for drawn; drawing itself changes nothing.
pub proof fn law_draws_what_is_new(
    role: Role,
    last_drawn: u32,
    event: DisplayEvent,
    index: u32,
)
    ensures
        ({
            let action = display_action(role, last_drawn, event, index);
            let after = drawn_after(last_drawn, event, index);
            &&& event is Resumed && index != last_drawn <==> action is Draw
            &&& action matches DisplayAction::Draw(screen) ==> {
                &&& role is Sender ==> screen.title.text@ == "sender:"@
                &&& role is Receiver ==> screen.title.text@ == "receiver:"@
                &&& screen.title.x == 0 && screen.title.y == 0
                &&& screen.message.text == crate::messages::MESSAGES@[index as int % 8]
                &&& screen.message.x == 0 && screen.message.y == 16
            }
            &&& action matches DisplayAction::Pause(ticks) ==> ticks == 1
            &&& event is Resumed ==> after == index
            &&& event is Drawn ==> after == last_drawn
        }),
        index <= 8 ==> display_action(role, NEVER_DRAWN, DisplayEvent::Resumed, index) is Draw,
{
    law_screen_shows(role, index);
}

} // verus!
