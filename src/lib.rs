//! A client for the two-channel comment feed of a live broadcast: the message
//! vocabularies of the control and chat channels, the session state machines that
//! decide what to write and when to stop, and the rule that turns their terminal
//! conditions into the program's exit.

pub mod chat;
pub mod control;
pub mod coordinator;
pub mod json;
pub mod message_server;
pub mod relive;
