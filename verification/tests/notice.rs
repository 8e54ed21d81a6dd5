use port_forwarder::acceptor;
use port_forwarder::copy::Stop;
use port_forwarder::exit::Exit;
use port_forwarder::notice::{of_acceptor, of_relay, of_stop, Severity};
use port_forwarder::relay;

#[test]
fn end_of_stream_is_not_an_error() {
    assert_eq!(of_stop(Stop::EndOfStream), Severity::Info);
}

#[test]
fn failed_calls_are_errors() {
    assert_eq!(of_stop(Stop::ReadFailed), Severity::Error);
    assert_eq!(of_stop(Stop::WriteFailed), Severity::Error);
    assert_eq!(of_stop(Stop::FlushFailed), Severity::Error);
}

#[test]
fn relay_lines() {
    assert_eq!(of_relay(relay::Action::Start), Some(Severity::Info));
    assert_eq!(of_relay(relay::Action::Release), Some(Severity::Info));
    assert_eq!(of_relay(relay::Action::CloseClient), Some(Severity::Error));
    assert_eq!(of_relay(relay::Action::Dial), None);
    assert_eq!(of_relay(relay::Action::Wait), None);
    assert_eq!(of_relay(relay::Action::Nothing), None);
}

#[test]
fn acceptor_lines() {
    assert_eq!(of_acceptor(acceptor::Action::Listen), Some(Severity::Info));
    assert_eq!(of_acceptor(acceptor::Action::Report), Some(Severity::Error));
    assert_eq!(of_acceptor(acceptor::Action::Exit(Exit::BindFailed)), Some(Severity::Error));
    assert_eq!(of_acceptor(acceptor::Action::Exit(Exit::Graceful)), None);
    assert_eq!(of_acceptor(acceptor::Action::Exit(Exit::MissingArguments)), None);
    assert_eq!(of_acceptor(acceptor::Action::Bind), None);
    assert_eq!(of_acceptor(acceptor::Action::Dispatch), None);
    assert_eq!(of_acceptor(acceptor::Action::Nothing), None);
}
