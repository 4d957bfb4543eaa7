//! Laws on addresses as texts.
use crate::net::{Ipv4Address, SocketAddress};
use crate::{net, text};
use vstd::prelude::*;

verus! {

/// An address is written as its four numbers, in their order and with dots between them, and with its
/// port after a colon; and it is read back from what it was written as.
pub proof fn law_address_is_written_and_read_back(
    address: SocketAddress,
    written: String,
    ip_written: String,
    input: &str,
    read: Option<Ipv4Address>,
)
    requires
        call_ensures(SocketAddress::to_text, (&address,), written),
        call_ensures(Ipv4Address::to_text, (&address.ip,), ip_written),
        input@ == ip_written@,
        call_ensures(Ipv4Address::parse, (input,), read),
    ensures
        ip_written@ == text::decimal(address.ip.a as nat) + "."@ + text::decimal(
            address.ip.b as nat,
        ) + "."@ + text::decimal(address.ip.c as nat) + "."@ + text::decimal(address.ip.d as nat),
        written@ == ip_written@ + ":"@ + text::decimal(address.port as nat),
        read == Some(address.ip),
{
    assert(ip_written@ == address.ip.dotted());
    if read is Some {
        net::law_dotted_is_unambiguous(read->0, address.ip);
    }
}

/// A text is read as an address only if it is what that address is written as.
pub proof fn law_only_written_addresses_are_read(
    input: &str,
    read: Option<Ipv4Address>,
    ip: Ipv4Address,
    written: String,
)
    requires
        call_ensures(Ipv4Address::parse, (input,), read),
        call_ensures(Ipv4Address::to_text, (&ip,), written),
    ensures
        read == Some(ip) <==> input@ == written@,
{
    if input@ == written@ {
        assert(input@ == ip.dotted());
        if read is Some {
            net::law_dotted_is_unambiguous(read->0, ip);
        }
    }
}

} // verus!
