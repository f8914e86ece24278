//! Translation of one raw Ethernet frame into one [`NetworkEvent`].
use crate::event::{EventView, NetworkEvent};
use crate::text::{decimal, decimal_of, lemma_decimal_nonempty};
use etherparse::NetSlice::{Ipv4 as SlicedIpv4, Ipv6 as SlicedIpv6};
use etherparse::SlicedPacket;
use etherparse::TransportSlice::{Tcp as SlicedTcp, Udp as SlicedUdp};
use vstd::prelude::*;
use vstd::string::*;

verus! {

use NetLayer::{Ipv4, Ipv6};
use TransportLayer::{Tcp, Udp};

/// The network layer of a frame: source and destination address in their
/// standard text form, and the upper-layer protocol number.
pub enum NetLayer {
    Ipv4(String, String, u8),
    Ipv6(String, String, u8),
}

/// The transport layer of a frame: source and destination port.
pub enum TransportLayer {
    Tcp(u16, u16),
    Udp(u16, u16),
}

/// The layers that could be decoded from a frame: the network layer, then
/// the transport layer.
pub struct FrameLayers(pub Option<NetLayer>, pub Option<TransportLayer>);

/// What the Ethernet slicer makes of a frame; `None` when it reports an error.
pub uninterp spec fn sliced_layers_of(frame: Seq<u8>) -> Option<FrameLayers>;

/// Relies on etherparse's `SlicedPacket::from_ethernet`, which depends on the
/// bytes alone, and on the standard text form of the addresses it reads.
#[verifier::external_body]
fn slice_ethernet(frame: &[u8]) -> (r: Option<FrameLayers>)
    ensures
        r == sliced_layers_of(frame@),
{
    let p = SlicedPacket::from_ethernet(frame).ok()?;
    Some(FrameLayers(
        match p.net {
            Some(SlicedIpv4(s)) => Some(Ipv4(s.header().source_addr().to_string(), s.header().destination_addr().to_string(), s.header().protocol().0)),
            Some(SlicedIpv6(s)) => Some(Ipv6(s.header().source_addr().to_string(), s.header().destination_addr().to_string(), s.header().next_header().0)),
            _ => None
        },
        match p.transport {
            Some(SlicedTcp(t)) => Some(Tcp(t.source_port(), t.destination_port())),
            Some(SlicedUdp(u)) => Some(Udp(u.source_port(), u.destination_port())),
            _ => None
        }
    ))
}

pub open spec fn not_available() -> Seq<char> {
    "N/A"@
}

pub open spec fn unknown_label() -> Seq<char> {
    "UNKNOWN"@
}

/// The label of an IPv4 protocol number.
pub open spec fn ipv4_label(p: u8) -> Seq<char> {
    if p == 6 {
        "TCP"@
    } else if p == 17 {
        "UDP"@
    } else if p == 1 {
        "ICMP"@
    } else {
        "IP_PROTO:"@ + decimal_of(p as nat)
    }
}

/// The label of an IPv6 next-header value.
pub open spec fn ipv6_label(p: u8) -> Seq<char> {
    if p == 6 {
        "TCP"@
    } else if p == 17 {
        "UDP"@
    } else if p == 58 {
        "ICMPv6"@
    } else {
        "IPv6_NEXT_HDR:"@ + decimal_of(p as nat)
    }
}

pub open spec fn net_label(n: NetLayer) -> Seq<char> {
    match n {
        NetLayer::Ipv4(_, _, p) => ipv4_label(p),
        NetLayer::Ipv6(_, _, p) => ipv6_label(p),
    }
}

pub open spec fn net_source(n: NetLayer) -> Seq<char> {
    match n {
        NetLayer::Ipv4(s, _, _) => s@,
        NetLayer::Ipv6(s, _, _) => s@,
    }
}

pub open spec fn net_dest(n: NetLayer) -> Seq<char> {
    match n {
        NetLayer::Ipv4(_, d, _) => d@,
        NetLayer::Ipv6(_, d, _) => d@,
    }
}

/// `IPv4 <src>:N/A -> <dst>:N/A`, and likewise for IPv6.
pub open spec fn net_summary(n: NetLayer) -> Seq<char> {
    let family = match n {
        NetLayer::Ipv4(..) => "IPv4 "@,
        NetLayer::Ipv6(..) => "IPv6 "@,
    };
    family + net_source(n) + ":N/A -> "@ + net_dest(n) + ":N/A"@
}

pub open spec fn transport_label(t: TransportLayer) -> Seq<char> {
    match t {
        TransportLayer::Tcp(..) => "TCP"@,
        TransportLayer::Udp(..) => "UDP"@,
    }
}

/// ` Ports: <src>-><dst>`.
pub open spec fn ports_summary(t: TransportLayer) -> Seq<char> {
    let (s, d) = match t {
        TransportLayer::Tcp(s, d) => (s, d),
        TransportLayer::Udp(s, d) => (s, d),
    };
    " Ports: "@ + decimal_of(s as nat) + "->"@ + decimal_of(d as nat)
}

/// `Raw packet len=<n>`.
pub open spec fn raw_summary(len: nat) -> Seq<char> {
    "Raw packet len="@ + decimal_of(len)
}

/// The event for a frame of `len` bytes captured at `timestamp`, given the
/// layers decoded from it (`None`: the frame could not be sliced at all).
pub open spec fn event_of(layers: Option<FrameLayers>, len: nat, timestamp: i64) -> EventView {
    match layers {
        None => EventView {
            timestamp,
            source_ip: not_available(),
            dest_ip: not_available(),
            protocol: unknown_label(),
            summary: raw_summary(len),
        },
        Some(l) => EventView {
            timestamp,
            source_ip: match l.0 {
                Some(n) => net_source(n),
                None => not_available(),
            },
            dest_ip: match l.0 {
                Some(n) => net_dest(n),
                None => not_available(),
            },
            protocol: match (l.0, l.1) {
                (Some(n), _) => net_label(n),
                (None, Some(t)) => transport_label(t),
                (None, None) => unknown_label(),
            },
            summary: match (l.0, l.1) {
                (Some(n), Some(t)) => net_summary(n) + ports_summary(t),
                (Some(n), None) => net_summary(n),
                (None, Some(t)) => ports_summary(t),
                (None, None) => raw_summary(len),
            },
        },
    }
}

fn ipv4_protocol_text(p: u8) -> (r: String)
    ensures
        r@ == ipv4_label(p),
{
    if p == 6 {
        String::from_str("TCP")
    } else if p == 17 {
        String::from_str("UDP")
    } else if p == 1 {
        String::from_str("ICMP")
    } else {
        String::from_str("IP_PROTO:").concat(decimal(p as u64).as_str())
    }
}

fn ipv6_protocol_text(p: u8) -> (r: String)
    ensures
        r@ == ipv6_label(p),
{
    if p == 6 {
        String::from_str("TCP")
    } else if p == 17 {
        String::from_str("UDP")
    } else if p == 58 {
        String::from_str("ICMPv6")
    } else {
        String::from_str("IPv6_NEXT_HDR:").concat(decimal(p as u64).as_str())
    }
}

fn net_summary_text(n: &NetLayer) -> (r: String)
    ensures
        r@ == net_summary(*n),
{
    let (family, s, d) = match n {
        NetLayer::Ipv4(s, d, _) => ("IPv4 ", s, d),
        NetLayer::Ipv6(s, d, _) => ("IPv6 ", s, d),
    };
    let mut r = String::from_str(family);
    r.append(s.as_str());
    r.append(":N/A -> ");
    r.append(d.as_str());
    r.append(":N/A");
    r
}

fn ports_summary_text(t: &TransportLayer) -> (r: String)
    ensures
        r@ == ports_summary(*t),
{
    let (s, d) = match t {
        TransportLayer::Tcp(s, d) => (*s, *d),
        TransportLayer::Udp(s, d) => (*s, *d),
    };
    let mut r = String::from_str(" Ports: ");
    r.append(decimal(s as u64).as_str());
    r.append("->");
    r.append(decimal(d as u64).as_str());
    r
}

fn raw_summary_text(len: usize) -> (r: String)
    ensures
        r@ == raw_summary(len as nat),
{
    String::from_str("Raw packet len=").concat(decimal(len as u64).as_str())
}

/// Builds the event for a frame of `len` bytes captured at `timestamp` from
/// the layers decoded from it.
pub fn translate_layers(layers: Option<FrameLayers>, len: usize, timestamp: i64) -> (r: NetworkEvent)
    ensures
        r@ == event_of(layers, len as nat, timestamp),
        r@.wf(),
{
    proof {
        lemma_decimal_nonempty(len as nat);
    }
    match layers {
        None => NetworkEvent {
            timestamp,
            source_ip: String::from_str("N/A"),
            dest_ip: String::from_str("N/A"),
            protocol: String::from_str("UNKNOWN"),
            summary: raw_summary_text(len),
        },
        Some(l) => {
            let (source_ip, dest_ip) = match &l.0 {
                Some(NetLayer::Ipv4(s, d, _)) => (s.clone(), d.clone()),
                Some(NetLayer::Ipv6(s, d, _)) => (s.clone(), d.clone()),
                None => (String::from_str("N/A"), String::from_str("N/A")),
            };
            let protocol = match (&l.0, &l.1) {
                (Some(NetLayer::Ipv4(_, _, p)), _) => ipv4_protocol_text(*p),
                (Some(NetLayer::Ipv6(_, _, p)), _) => ipv6_protocol_text(*p),
                (None, Some(TransportLayer::Tcp(..))) => String::from_str("TCP"),
                (None, Some(TransportLayer::Udp(..))) => String::from_str("UDP"),
                (None, None) => String::from_str("UNKNOWN"),
            };
            let summary = match (&l.0, &l.1) {
                (Some(n), Some(t)) => net_summary_text(n).concat(ports_summary_text(t).as_str()),
                (Some(n), None) => net_summary_text(n),
                (None, Some(t)) => ports_summary_text(t),
                (None, None) => raw_summary_text(len),
            };
            proof {
                match (l.0, l.1) {
                    (Some(n), _) => {
                        assert(net_summary(n).len() > 0) by { reveal_strlit("IPv4 "); reveal_strlit("IPv6 "); }
                    },
                    (None, Some(t)) => {
                        assert(ports_summary(t).len() > 0) by { reveal_strlit(" Ports: "); }
                    },
                    _ => {},
                }
            }
            NetworkEvent { timestamp, source_ip, dest_ip, protocol, summary }
        },
    }
}

/// Translates one raw Ethernet frame captured at `timestamp`. Never fails:
/// an undecodable frame gives `N/A` addresses, the `UNKNOWN` protocol and a
/// summary that carries the frame's length.
pub fn translate(frame: &[u8], timestamp: i64) -> (r: NetworkEvent)
    ensures
        r@ == event_of(sliced_layers_of(frame@), frame@.len(), timestamp),
        r@.wf(),
{
    translate_layers(slice_ethernet(frame), frame.len(), timestamp)
}

} // verus!
