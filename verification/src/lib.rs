//! Core of a demo in which two boards talk over bare 802.11 frames, without an operating
//! system.
//!
//! The sender cycles through a table of messages and transmits the index of one at a time.
//! The receiver shows the message and echoes the frame, which makes the sender go on. Both
//! boards run a heartbeat, a display and a radio task on a round-robin executor that a timer
//! interrupt drives.
//!
//! This crate holds the decisions, as functions from a state and an event to the next state
//! and an action. The firmware carries out the actions: it polls, sleeps, draws, transmits
//! and receives.

/// What tasks and interrupts share.
pub mod board;
/// Ticks and waits.
pub mod clock;
/// The display task.
pub mod display;
/// The echo task of the receiver.
pub mod echo;
/// Laws about the two boards together.
pub mod exchange;
/// Ready flags and round-robin polling.
pub mod executor;
/// Frames as bytes.
pub mod frame;
/// The heartbeat task.
pub mod heartbeat;
/// The message table.
pub mod messages;
/// The two boards.
pub mod role;
/// The task of the sender.
pub mod sender;
