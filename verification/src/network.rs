//! The machine's network: which address the video is streamed on, and
//! whether the machine is online.

use vstd::prelude::*;
use crate::text::{decimal, decimal_text};

verus! {

/// One network interface of the machine, as far as the choice of address needs it.
#[derive(Clone, Debug)]
pub struct NetInterface {
    /// The interface's address, written out.
    pub ip: String,
    pub is_loopback: bool,
    pub is_ipv4: bool,
}

/// The message when no interface has an address to stream on.
pub const NO_SUITABLE_ADDRESS: &'static str = "No suitable IP address found";

/// The text shown with the address the video is streamed on.
pub const STREAMING_PREFIX: &'static str = "Currently streaming on IP Address: ";

/// The host probed to tell whether the machine is online (a public DNS server).
pub const CONNECTIVITY_HOST: &'static str = "8.8.8.8";

/// The port probed on `CONNECTIVITY_HOST`.
pub const CONNECTIVITY_PORT: u16 = 53;

/// Whether an interface's address can be streamed on: an IPv4 address that
/// does not loop back.
pub open spec fn streamable(i: NetInterface) -> bool {
    !i.is_loopback && i.is_ipv4
}

/// The address of the first interface in `interfaces` whose address can be
/// streamed on, if there is one.
pub open spec fn streaming_ip(interfaces: Seq<NetInterface>) -> Option<Seq<char>>
    decreases interfaces.len(),
{
    if interfaces.len() == 0 {
        None
    } else if streamable(interfaces[0]) {
        Some(interfaces[0].ip@)
    } else {
        streaming_ip(interfaces.drop_first())
    }
}

/// The address chosen to stream on is that of the first interface that can
/// be streamed on: where `k` is the least index of an IPv4 interface that does
/// not loop back, it is the address of interface `k`; where there is none,
/// no address is chosen. In particular, a first interface that can be
/// streamed on is always chosen.
pub proof fn lemma_streaming_ip_is_first_streamable(interfaces: Seq<NetInterface>, k: int)
    ensures
        (0 <= k < interfaces.len() && streamable(interfaces[k])
            && forall|j: int| 0 <= j < k ==> !streamable(#[trigger] interfaces[j]))
            ==> streaming_ip(interfaces) == Some(interfaces[k].ip@),
        (forall|j: int| 0 <= j < interfaces.len() ==> !streamable(#[trigger] interfaces[j]))
            ==> streaming_ip(interfaces) is None,
        (interfaces.len() > 0 && streamable(interfaces[0])) ==> streaming_ip(interfaces) == Some(interfaces[0].ip@),
    decreases interfaces.len(),
{
    if interfaces.len() > 0 {
        let rest = interfaces.drop_first();
        lemma_streaming_ip_is_first_streamable(rest, k - 1);
        if 0 < k < interfaces.len() && streamable(interfaces[k])
            && forall|j: int| 0 <= j < k ==> !streamable(#[trigger] interfaces[j]) {
            assert(!streamable(interfaces[0]));
            assert(rest[k - 1] == interfaces[k]);
            assert forall|j: int| 0 <= j < k - 1 implies !streamable(#[trigger] rest[j]) by {
                assert(rest[j] == interfaces[j + 1]);
            }
        }
        if forall|j: int| 0 <= j < interfaces.len() ==> !streamable(#[trigger] interfaces[j]) {
            assert(!streamable(interfaces[0]));
            assert forall|j: int| 0 <= j < rest.len() implies !streamable(#[trigger] rest[j]) by {
                assert(rest[j] == interfaces[j + 1]);
            }
        }
    }
}

/// The address to stream on: that of the first interface with an IPv4
/// address that does not loop back.
pub fn get_local_ip(interfaces: &Vec<NetInterface>) -> (r: Result<String, String>)
    ensures
        match r {
            Ok(ip) => streaming_ip(interfaces@) == Some(ip@),
            Err(e) => streaming_ip(interfaces@) is None && e@ == NO_SUITABLE_ADDRESS@,
        },
        match r {
            Ok(ip) => exists|k: int|
                0 <= k < interfaces@.len() && streamable(#[trigger] interfaces@[k]) && ip@ == interfaces@[k].ip@
                    && forall|j: int| 0 <= j < k ==> !streamable(#[trigger] interfaces@[j]),
            Err(_) => forall|j: int| 0 <= j < interfaces@.len() ==> !streamable(#[trigger] interfaces@[j]),
        },
{
    let mut i: usize = 0;
    proof {
        assert(interfaces@.skip(0) =~= interfaces@);
    }
    while i < interfaces.len()
        invariant
            0 <= i <= interfaces@.len(),
            streaming_ip(interfaces@) == streaming_ip(interfaces@.skip(i as int)),
            forall|j: int| 0 <= j < i ==> !streamable(#[trigger] interfaces@[j]),
        decreases interfaces@.len() - i,
    {
        let iface = &interfaces[i];
        proof {
            assert(interfaces@.skip(i as int)[0] == interfaces@[i as int]);
            assert(interfaces@.skip(i as int).drop_first() =~= interfaces@.skip(i + 1));
        }
        if !iface.is_loopback && iface.is_ipv4 {
            let ip = iface.ip.clone();
            proof {
                assert(streamable(interfaces@[i as int]));
            }
            return Ok(ip);
        }
        i = i + 1;
    }
    proof {
        assert(interfaces@.skip(i as int).len() == 0);
    }
    Err(String::from_str(NO_SUITABLE_ADDRESS))
}

/// The text that tells on which address the video is streamed.
pub fn address(ip: &str) -> (r: String)
    ensures
        r@ == STREAMING_PREFIX@ + ip@,
{
    let mut text = String::from_str(STREAMING_PREFIX);
    text.append(ip);
    text
}

/// The address `host:port` probed to tell whether the machine is online.
pub fn connectivity_probe_address() -> (r: String)
    ensures
        r@ == CONNECTIVITY_HOST@ + ":"@ + decimal(CONNECTIVITY_PORT as nat),
{
    let mut text = String::from_str(CONNECTIVITY_HOST);
    text.append(":");
    let port = decimal_text(CONNECTIVITY_PORT as u64);
    text.append(port.as_str());
    text
}

/// How the connectivity probe ended.
#[derive(Clone, Copy, Debug, PartialEq, Eq, Structural)]
pub enum ProbeOutcome {
    /// The probe's address did not read as a socket address.
    AddressInvalid,
    /// A connection was made in time.
    Connected,
    /// The connection failed.
    Failed,
    /// No connection was made in time.
    TimedOut,
}

/// Whether the machine is online: exactly when the probe connected in time.
pub fn is_online(outcome: ProbeOutcome) -> (r: bool)
    ensures
        r == (outcome == ProbeOutcome::Connected),
{
    match outcome {
        ProbeOutcome::Connected => true,
        _ => false,
    }
}

} // verus!
