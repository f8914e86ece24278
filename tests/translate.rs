use netwatch::text::decimal;
use netwatch::translate::{translate, translate_layers, FrameLayers, NetLayer, TransportLayer};

fn ipv4_tcp_frame() -> Vec<u8> {
    let mut f = vec![0x00, 0x11, 0x22, 0x33, 0x44, 0x55, 0x66, 0x77, 0x88, 0x99, 0xaa, 0xbb, 0x08, 0x00];
    f.extend([0x45, 0x00, 0x00, 0x28, 0x00, 0x00, 0x40, 0x00, 0x40, 0x06, 0x00, 0x00]);
    f.extend([192, 168, 1, 100, 8, 8, 8, 8]);
    f.extend([0x30, 0x39, 0x00, 0x35, 0, 0, 0, 1, 0, 0, 0, 0, 0x50, 0x02, 0xff, 0xff, 0, 0, 0, 0]);
    f
}

fn ipv6_udp_frame() -> Vec<u8> {
    let mut f = vec![0x00, 0x11, 0x22, 0x33, 0x44, 0x55, 0x66, 0x77, 0x88, 0x99, 0xaa, 0xbb, 0x86, 0xdd];
    f.extend([0x60, 0, 0, 0, 0x00, 0x08, 17, 64]);
    f.extend([0x20, 0x01, 0x0d, 0xb8, 0, 0, 0, 0, 0, 0, 0, 0, 0, 0, 0, 1]);
    f.extend([0, 0, 0, 0, 0, 0, 0, 0, 0, 0, 0, 0, 0, 0, 0, 1]);
    f.extend([0x14, 0xe9, 0x00, 0x35, 0x00, 0x08, 0, 0]);
    f
}

#[test]
fn ipv4_tcp_frame_is_fully_decoded() {
    let e = translate(&ipv4_tcp_frame(), 7);
    assert_eq!(e.timestamp, 7);
    assert_eq!(e.source_ip, "192.168.1.100");
    assert_eq!(e.dest_ip, "8.8.8.8");
    assert_eq!(e.protocol, "TCP");
    assert_eq!(e.summary, "IPv4 192.168.1.100:N/A -> 8.8.8.8:N/A Ports: 12345->53");
}

#[test]
fn ipv6_udp_frame_is_fully_decoded() {
    let e = translate(&ipv6_udp_frame(), 0);
    assert_eq!(e.source_ip, "2001:db8::1");
    assert_eq!(e.dest_ip, "::1");
    assert_eq!(e.protocol, "UDP");
    assert_eq!(e.summary, "IPv6 2001:db8::1:N/A -> ::1:N/A Ports: 5353->53");
}

#[test]
fn undecodable_frame_gives_best_effort_event() {
    let frame = vec![1u8, 2, 3, 4, 5];
    let e = translate(&frame, 1);
    assert_eq!(e.source_ip, "N/A");
    assert_eq!(e.dest_ip, "N/A");
    assert_eq!(e.protocol, "UNKNOWN");
    assert_eq!(e.summary, "Raw packet len=5");
}

#[test]
fn empty_frame_gives_best_effort_event() {
    let e = translate(&[], 1);
    assert_eq!(e.protocol, "UNKNOWN");
    assert_eq!(e.summary, "Raw packet len=0");
}

#[test]
fn truncated_frame_never_fails() {
    let full = ipv4_tcp_frame();
    for cut in 0..full.len() {
        let e = translate(&full[..cut], 3);
        assert!(!e.summary.is_empty());
    }
}

#[test]
fn unknown_protocol_numbers_are_formatted() {
    let l = FrameLayers(Some(NetLayer::Ipv4("1.2.3.4".to_string(), "5.6.7.8".to_string(), 143)), None);
    let e = translate_layers(Some(l), 60, 0);
    assert_eq!(e.protocol, "IP_PROTO:143");
    assert_eq!(e.summary, "IPv4 1.2.3.4:N/A -> 5.6.7.8:N/A");
    let l6 = FrameLayers(Some(NetLayer::Ipv6("::1".to_string(), "::2".to_string(), 58)), None);
    assert_eq!(translate_layers(Some(l6), 60, 0).protocol, "ICMPv6");
    let l6b = FrameLayers(Some(NetLayer::Ipv6("::1".to_string(), "::2".to_string(), 0)), None);
    assert_eq!(translate_layers(Some(l6b), 60, 0).protocol, "IPv6_NEXT_HDR:0");
}

#[test]
fn transport_without_network_layer_sets_label() {
    let l = FrameLayers(None, Some(TransportLayer::Udp(1, 2)));
    let e = translate_layers(Some(l), 10, 0);
    assert_eq!(e.source_ip, "N/A");
    assert_eq!(e.protocol, "UDP");
    assert_eq!(e.summary, " Ports: 1->2");
}

#[test]
fn no_layers_gives_raw_summary() {
    let l = FrameLayers(None, None);
    let e = translate_layers(Some(l), 42, 0);
    assert_eq!(e.protocol, "UNKNOWN");
    assert_eq!(e.summary, "Raw packet len=42");
}

#[test]
fn decimal_matches_display() {
    for n in [0u64, 7, 10, 99, 100, 65535, 1234567890, u64::MAX] {
        assert_eq!(decimal(n), n.to_string());
    }
}
