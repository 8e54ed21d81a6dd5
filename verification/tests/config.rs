use port_forwarder::config::{loopback, usage, Config, MissingArguments};
use port_forwarder::exit::Exit;

fn args(words: &[&str]) -> Vec<String> {
    words.iter().map(|word| word.to_string()).collect()
}

#[test]
fn two_ports_make_a_config() {
    let config = Config::from_args(&args(&["forwarder", "8080", "9090"])).unwrap();
    assert_eq!(config.source_port(), "8080");
    assert_eq!(config.destination_port(), "9090");
    assert_eq!(config.listen_address(), "127.0.0.1:8080");
    assert_eq!(config.target_address(), "127.0.0.1:9090");
}

#[test]
fn arguments_after_the_two_ports_are_ignored() {
    let config = Config::from_args(&args(&["forwarder", "1", "2", "3", "4"])).unwrap();
    assert_eq!(config.listen_address(), "127.0.0.1:1");
    assert_eq!(config.target_address(), "127.0.0.1:2");
}

#[test]
fn missing_arguments_are_refused() {
    assert_eq!(Config::from_args(&args(&[])), Err(MissingArguments));
    assert_eq!(Config::from_args(&args(&["forwarder"])), Err(MissingArguments));
    assert_eq!(Config::from_args(&args(&["forwarder", "8080"])), Err(MissingArguments));
}

#[test]
fn missing_arguments_end_the_process_with_a_nonzero_status() {
    assert_eq!(MissingArguments.exit(), Exit::MissingArguments);
    assert_ne!(MissingArguments.exit().code(), 0);
}

#[test]
fn ports_are_taken_as_given() {
    let config = Config::from_args(&args(&["forwarder", "", "not-a-port"])).unwrap();
    assert_eq!(config.source_port(), "");
    assert_eq!(config.listen_address(), "127.0.0.1:");
    assert_eq!(config.target_address(), "127.0.0.1:not-a-port");
}

#[test]
fn loopback_address_of_a_port() {
    assert_eq!(loopback("80"), "127.0.0.1:80");
    assert_eq!(loopback("65535"), "127.0.0.1:65535");
}

#[test]
fn usage_line_names_the_program() {
    assert_eq!(usage("forwarder"), "Usage: forwarder <from> <to> ");
    assert_eq!(usage(""), "Usage:  <from> <to> ");
}
