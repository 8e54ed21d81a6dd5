//! What is worth a line in the log, and how loud a line.
use crate::acceptor;
use crate::copy::Stop;
use crate::exit::Exit;
use crate::relay;
use vstd::prelude::*;

verus! {

/// How loud a line of the log is.
#[derive(Clone, Copy, Debug, PartialEq, Eq, Structural)]
pub enum Severity {
    /// The forwarder does what it is there for.
    Info,
    /// A call failed.
    Error,
}

/// A copy task that stops at the end of its stream closes quietly; one that
/// stops on a failed call reports an error.
pub open spec fn stop_severity(stop: Stop) -> Severity {
    if stop == Stop::EndOfStream {
        Severity::Info
    } else {
        Severity::Error
    }
}

/// A relay announces the start of forwarding and the release of its sockets,
/// and reports a failed dial as an error.
pub open spec fn relay_severity(action: relay::Action) -> Option<Severity> {
    match action {
        relay::Action::Start | relay::Action::Release => Some(Severity::Info),
        relay::Action::CloseClient => Some(Severity::Error),
        _ => None,
    }
}

/// The acceptor announces that it listens, and reports a failed accept and a
/// failed bind as errors.
pub open spec fn acceptor_severity(action: acceptor::Action) -> Option<Severity> {
    match action {
        acceptor::Action::Listen => Some(Severity::Info),
        acceptor::Action::Report | acceptor::Action::Exit(Exit::BindFailed) => Some(
            Severity::Error,
        ),
        _ => None,
    }
}

/// How loud the line is that tells why a copy task stopped.
pub fn of_stop(stop: Stop) -> (severity: Severity)
    ensures
        severity == stop_severity(stop),
        severity == Severity::Error <==> stop != Stop::EndOfStream,
{
    match stop {
        Stop::EndOfStream => Severity::Info,
        _ => Severity::Error,
    }
}

/// How loud the line is that goes with a request of a relay, if one goes with it.
pub fn of_relay(action: relay::Action) -> (severity: Option<Severity>)
    ensures
        severity == relay_severity(action),
{
    match action {
        relay::Action::Start => Some(Severity::Info),
        relay::Action::Release => Some(Severity::Info),
        relay::Action::CloseClient => Some(Severity::Error),
        _ => None,
    }
}

/// How loud the line is that goes with a request of the acceptor, if one goes with it.
pub fn of_acceptor(action: acceptor::Action) -> (severity: Option<Severity>)
    ensures
        severity == acceptor_severity(action),
{
    match action {
        acceptor::Action::Listen => Some(Severity::Info),
        acceptor::Action::Report => Some(Severity::Error),
        acceptor::Action::Exit(exit) => match exit {
            Exit::BindFailed => Some(Severity::Error),
            _ => None,
        },
        _ => None,
    }
}

} // verus!
