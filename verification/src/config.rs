//! Where the service listens.

use crate::text::{decimal, push_decimal};
use vstd::prelude::*;
use vstd::string::StringExecFns;

verus! {

/// The port used when none is configured.
pub const DEFAULT_PORT: u16 = 3000;

/// What `str::parse::<u16>` makes of a text: the number it denotes, or `None`
/// when the text is not a number that fits in sixteen bits.
pub uninterp spec fn parsed_port(text: Seq<char>) -> Option<u16>;

/// Wraps `str::parse::<u16>`, with the error dropped: the result depends on
/// the characters of the text alone.
#[verifier::external_body]
fn parse_port(text: &str) -> (port: Option<u16>)
    ensures
        port == parsed_port(text@),
{
    text.parse::<u16>().ok()
}

/// The port to listen on, given what the configured text parsed to.
pub fn port_or_default(parsed: Option<u16>) -> (port: u16)
    ensures
        port == match parsed {
            Some(port) => port,
            None => DEFAULT_PORT,
        },
{
    match parsed {
        Some(port) => port,
        None => DEFAULT_PORT,
    }
}

/// The port to listen on: the configured one where a setting is present and
/// parses as a port number, the default otherwise.
pub fn select_port(setting: Option<&str>) -> (port: u16)
    ensures
        port == match setting {
            Some(text) => match parsed_port(text@) {
                Some(port) => port,
                None => DEFAULT_PORT,
            },
            None => DEFAULT_PORT,
        },
{
    match setting {
        Some(text) => port_or_default(parse_port(text)),
        None => DEFAULT_PORT,
    }
}

/// The address the listener binds: every interface, on `port`.
pub fn bind_address(port: u16) -> (address: String)
    ensures
        address@ == "0.0.0.0:"@ + decimal(port as nat),
{
    let mut address = String::from_str("0.0.0.0:");
    push_decimal(&mut address, port as u32);
    address
}

} // verus!
