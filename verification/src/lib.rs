//! The decision core of a loopback TCP forwarder.
//!
//! The forwarder listens on one loopback address and relays every accepted
//! connection to a fixed destination, copying bytes in both directions until
//! either side closes. This crate holds the rules of that program and none of
//! its sockets: each component is a state machine that is told what happened
//! (an event) and answers with what to do next (an action). A driver performs
//! the actions on real sockets and reports the outcomes.
//!
//! * [`config`]: the command line and the two loopback addresses.
//! * [`acceptor`]: the accept loop.
//! * [`relay`]: one connection pair, from the dial to the release of both sockets.
//! * [`copy`]: one directional copy task.
//! * [`exit`]: how the process ends.
//! * [`notice`]: what is logged, and how loud.
//! * [`forwarder`]: how the machines compose, and what holds of the whole.
pub mod acceptor;
pub mod config;
pub mod copy;
pub mod exit;
pub mod forwarder;
pub mod notice;
pub mod relay;
