//! Where the web server listens.
use vstd::prelude::*;

use crate::text::{decimal, decimal_string, same_text};

verus! {

broadcast use vstd::string::group_string_axioms;

/// The port chosen by the command line: 8080 when the first argument after
/// the program's name is `d` (development), else 80.
pub open spec fn port_for(args: Seq<Seq<char>>) -> u16 {
    if args.len() > 1 && args[1] == "d"@ {
        8080
    } else {
        80
    }
}

/// Chooses the port from the command line arguments (program name first).
pub fn listen_port(args: &Vec<String>) -> (port: u16)
    ensures
        port == port_for(args@.map_values(|a: String| a@)),
{
    if args.len() > 1 && same_text(args[1].as_str(), "d") {
        8080
    } else {
        80
    }
}

/// The address the server binds: every interface, on `port`.
pub fn listen_address(port: u16) -> (address: String)
    ensures
        address@ == "0.0.0.0:"@ + decimal(port as nat),
{
    let mut address = String::from_str("0.0.0.0:");
    let digits = decimal_string(port as u64);
    address.append(digits.as_str());
    address
}

} // verus!
