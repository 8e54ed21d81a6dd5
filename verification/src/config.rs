//! The command line: a source port to listen on and a destination port to
//! forward to, both on the loopback interface.
use crate::exit::Exit;
use vstd::prelude::*;
use vstd::string::*;

verus! {

/// The host part of both addresses, up to and including the colon.
pub open spec fn loopback_prefix() -> Seq<char> {
    "127.0.0.1:"@
}

/// The loopback address with the given port.
pub open spec fn loopback_address(port: Seq<char>) -> Seq<char> {
    loopback_prefix() + port
}

/// The usage line for a program of the given name.
pub open spec fn usage_line(program: Seq<char>) -> Seq<char> {
    "Usage: "@ + program + " <from> <to> "@
}

/// The command line held no source port or no destination port.
#[derive(Clone, Copy, Debug, PartialEq, Eq, Structural)]
pub struct MissingArguments;

impl MissingArguments {
    /// The ending that this error is fatal with.
    pub fn exit(self) -> (exit: Exit)
        ensures
            exit == Exit::MissingArguments,
    {
        Exit::MissingArguments
    }
}

/// The two ports, as they were given.
#[derive(Clone, Debug, PartialEq, Eq)]
pub struct Config {
    source_port: String,
    destination_port: String,
}

/// The mathematical value of a [`Config`].
pub struct ConfigView {
    pub source_port: Seq<char>,
    pub destination_port: Seq<char>,
}

impl View for Config {
    type V = ConfigView;

    closed spec fn view(&self) -> ConfigView {
        ConfigView {
            source_port: self.source_port@,
            destination_port: self.destination_port@,
        }
    }
}

impl Config {
    /// Reads the command line, program name first. The two arguments after
    /// the program name are the source and the destination port; whatever
    /// follows them is ignored. With fewer than two arguments it fails.
    pub fn from_args(args: &Vec<String>) -> (r: Result<Config, MissingArguments>)
        ensures
            r is Ok <==> args@.len() >= 3,
            r matches Ok(config) ==> config@ == (ConfigView {
                source_port: args@[1]@,
                destination_port: args@[2]@,
            }),
    {
        if args.len() < 3 {
            Err(MissingArguments)
        } else {
            Ok(Config { source_port: args[1].clone(), destination_port: args[2].clone() })
        }
    }

    /// The address that the acceptor binds.
    pub fn listen_address(&self) -> (address: String)
        ensures
            address@ == loopback_address(self@.source_port),
    {
        loopback(self.source_port.as_str())
    }

    /// The address that every relay dials.
    pub fn target_address(&self) -> (address: String)
        ensures
            address@ == loopback_address(self@.destination_port),
    {
        loopback(self.destination_port.as_str())
    }

    /// The source port, as it was given.
    pub fn source_port(&self) -> (port: &str)
        ensures
            port@ == self@.source_port,
    {
        self.source_port.as_str()
    }

    /// The destination port, as it was given.
    pub fn destination_port(&self) -> (port: &str)
        ensures
            port@ == self@.destination_port,
    {
        self.destination_port.as_str()
    }
}

/// The loopback address with the given port, which is not examined: a port
/// that names no socket shows when the address is bound or dialled.
pub fn loopback(port: &str) -> (address: String)
    ensures
        address@ == loopback_address(port@),
{
    let mut address = String::from_str("127.0.0.1:");
    address.append(port);
    address
}

/// The line printed when arguments are missing.
pub fn usage(program: &str) -> (line: String)
    ensures
        line@ == usage_line(program@),
{
    let mut line = String::from_str("Usage: ");
    line.append(program);
    line.append(" <from> <to> ");
    line
}

} // verus!
