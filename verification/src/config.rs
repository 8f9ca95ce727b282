//! Where the store is reached, and how long a request may take.

use vstd::prelude::*;
use vstd::string::*;

verus! {

/// The host of the store where none is given.
pub const DEFAULT_ADDR: &'static str = "localhost";

/// The port of the store where none is given.
pub const DEFAULT_PORT: u16 = 9042;

/// The keyspace that holds the table of vehicles.
pub const KEYSPACE: &'static str = "hello";

/// The seconds after which a request is given up.
pub const REQUEST_TIMEOUT_SECS: u64 = 5;

/// The ten digits, in order.
pub open spec fn digit(value: nat) -> char
    recommends
        value < 10,
{
    "0123456789"@[value as int]
}

/// A number in decimal notation, without leading zeros.
pub open spec fn decimal(value: nat) -> Seq<char>
    decreases value,
{
    if value < 10 {
        seq![digit(value)]
    } else {
        decimal(value / 10).push(digit(value % 10))
    }
}

/// A store's node as the driver wants it named: host, colon, port.
pub open spec fn node_text(addr: Seq<char>, port: u16) -> Seq<char> {
    addr + ":"@ + decimal(port as nat)
}

fn digit_text(value: u16) -> (text: &'static str)
    requires
        value < 10,
    ensures
        text@ == seq![digit(value as nat)],
{
    proof {
        reveal_strlit("0123456789");
        reveal_strlit("0");
        reveal_strlit("1");
        reveal_strlit("2");
        reveal_strlit("3");
        reveal_strlit("4");
        reveal_strlit("5");
        reveal_strlit("6");
        reveal_strlit("7");
        reveal_strlit("8");
        reveal_strlit("9");
    }
    let text = match value {
        0 => "0",
        1 => "1",
        2 => "2",
        3 => "3",
        4 => "4",
        5 => "5",
        6 => "6",
        7 => "7",
        8 => "8",
        _ => "9",
    };
    assert(text@ =~= seq![digit(value as nat)]);
    text
}

/// A port number in decimal notation.
pub fn decimal_text(value: u16) -> (text: String)
    ensures
        text@ == decimal(value as nat),
    decreases value,
{
    if value < 10 {
        String::from_str(digit_text(value))
    } else {
        let mut text = decimal_text(value / 10);
        text.append(digit_text(value % 10));
        assert(text@ =~= decimal(value as nat));
        text
    }
}

/// The node of the store, named by host and port. A host or a port that is
/// not given is the default one.
pub fn node_address(addr: Option<&str>, port: Option<u16>) -> (node: String)
    ensures
        node@ == node_text(
            match addr {
                Some(addr) => addr@,
                None => DEFAULT_ADDR@,
            },
            match port {
                Some(port) => port,
                None => DEFAULT_PORT,
            },
        ),
{
    let host = match addr {
        Some(addr) => addr,
        None => DEFAULT_ADDR,
    };
    let port = match port {
        Some(port) => port,
        None => DEFAULT_PORT,
    };
    let mut node = String::from_str(host);
    node.append(":");
    let digits = decimal_text(port);
    node.append(digits.as_str());
    node
}

} // verus!
