//! Transport addresses and listener identifiers, as the networking stack
//! defines them.

use vstd::prelude::*;
use libp2p::swarm::derive_prelude::ListenerId;
use libp2p::Multiaddr;

verus! {

#[verifier::external_type_specification]
#[verifier::external_body]
pub struct ExMultiaddr(Multiaddr);

#[verifier::external_type_specification]
#[verifier::external_body]
pub struct ExMultiaddrError(libp2p::multiaddr::Error);

#[verifier::external_type_specification]
#[verifier::external_body]
pub struct ExListenerId(ListenerId);

/// Whether a text is a well-formed multiaddress.
pub uninterp spec fn is_multiaddr(text: Seq<char>) -> bool;

/// Relies on `<Multiaddr as FromStr>::from_str`: the outcome depends on the
/// text alone, and a non-empty text that does not start with `/` is refused.
#[verifier::external_body]
fn parse_multiaddr(text: &str) -> (r: Result<Multiaddr, libp2p::multiaddr::Error>)
    ensures
        r is Ok <==> is_multiaddr(text@),
        text@.len() > 0 && text@[0] != '/' ==> r is Err,
{
    text.parse::<Multiaddr>()
}

/// Relies on the derived `PartialEq` of `ListenerId`, which compares the one
/// counter value it holds.
#[verifier::external_body]
pub(crate) fn same_listener(a: &ListenerId, b: &ListenerId) -> (r: bool)
    ensures
        r == (*a == *b),
{
    a == b
}

/// An address text that is not a multiaddress.
#[derive(Debug, Clone, Copy, PartialEq, Eq, Structural)]
pub struct AddressParseError;

/// Parses a transport address. A multiaddress starts with `/`.
pub fn parse_address(text: &str) -> (r: Result<Multiaddr, AddressParseError>)
    ensures
        r is Ok <==> is_multiaddr(text@),
        text@.len() > 0 && text@[0] != '/' ==> r is Err,
{
    match parse_multiaddr(text) {
        Ok(a) => Ok(a),
        Err(_) => Err(AddressParseError),
    }
}

} // verus!
