//! Protocol-selecting launcher for the `tcpproxy` and `udpproxy` delegates.
//!
//! The crate holds the decisions of the launcher: how a command line becomes
//! a launch request, which delegate serves it, where that delegate is looked
//! for, how it is provisioned when it is missing, and which exit status the
//! launcher ends with. It performs no input or output itself: the caller
//! carries out each [`dispatch::Action`] and reports what happened.

pub mod cli;
pub mod dispatch;
pub mod failure;
pub mod mode;
pub mod options;
pub mod request;
pub mod resolver;
pub mod translate;
