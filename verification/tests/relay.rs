use ztunnel::net::IpAddr;
use ztunnel::relay::{CopyAction, CopyEvent, Relay};

#[test]
fn client_eof_shuts_the_upstream_write_half() {
    let mut r = Relay::new();
    assert!(!r.finished());
    assert_eq!(r.on(CopyEvent::ClientEof), CopyAction::ShutdownUpstream);
    assert!(!r.finished());
    assert_eq!(r, Relay { client_done: true, upstream_done: false, failed: false, sent: 0, received: 0 });
    // told twice, done once
    assert_eq!(r.on(CopyEvent::ClientEof), CopyAction::Nothing);
    assert_eq!(r.on(CopyEvent::UpstreamEof), CopyAction::ShutdownClient);
    assert!(r.finished());
    assert_eq!(r.on(CopyEvent::UpstreamEof), CopyAction::Nothing);
    assert_eq!(r.on(CopyEvent::Failed), CopyAction::Nothing);
    assert_eq!(r, Relay { client_done: true, upstream_done: true, failed: false, sent: 0, received: 0 });
}

#[test]
fn upstream_eof_shuts_the_client_write_half() {
    let mut r = Relay::new();
    assert_eq!(r.on(CopyEvent::UpstreamEof), CopyAction::ShutdownClient);
    assert!(!r.finished());
    assert_eq!(r.on(CopyEvent::ClientEof), CopyAction::ShutdownUpstream);
    assert!(r.finished());
}

#[test]
fn a_failure_ends_both_directions() {
    let mut r = Relay::new();
    assert_eq!(r.on(CopyEvent::ClientEof), CopyAction::ShutdownUpstream);
    assert_eq!(r.on(CopyEvent::Failed), CopyAction::Abort);
    assert!(r.finished());
    assert_eq!(r.on(CopyEvent::UpstreamEof), CopyAction::Nothing);
    assert_eq!(r, Relay { client_done: true, upstream_done: false, failed: true, sent: 0, received: 0 });
}

#[test]
fn ipv4_of_an_address() {
    assert_eq!(IpAddr::V4(10, 0, 0, 9).to_ipv4(), Some(IpAddr::V4(10, 0, 0, 9)));
    // ::ffff:10.0.0.5
    assert_eq!(IpAddr::V6(0xffff_0a00_0005).to_ipv4(), Some(IpAddr::V4(10, 0, 0, 5)));
    // ::1.2.3.4
    assert_eq!(IpAddr::V6(0x0102_0304).to_ipv4(), Some(IpAddr::V4(1, 2, 3, 4)));
    assert_eq!(IpAddr::V6(1).to_ipv4(), Some(IpAddr::V4(0, 0, 0, 1)));
    assert_eq!(IpAddr::V6(0xffff_ffff_ffff).to_ipv4(), Some(IpAddr::V4(255, 255, 255, 255)));
    // ::1:0:0 and 2001:db8::1 are no IPv4 addresses
    assert_eq!(IpAddr::V6(0x1_0000_0000).to_ipv4(), None);
    assert_eq!(IpAddr::V6(0x2001_0db8_0000_0000_0000_0000_0000_0001).to_ipv4(), None);
    assert_eq!(IpAddr::V6(0xfffe_0a00_0005).to_ipv4(), None);
    assert_eq!(IpAddr::V6(u128::MAX).to_ipv4(), None);
}

#[test]
fn bytes_are_counted_per_direction() {
    let mut r = Relay::new();
    assert_eq!((r.sent, r.received), (0, 0));
    assert_eq!(r.on(CopyEvent::ClientData(4)), CopyAction::Nothing);
    assert_eq!(r.on(CopyEvent::UpstreamData(4)), CopyAction::Nothing);
    assert_eq!(r.on(CopyEvent::ClientData(1000)), CopyAction::Nothing);
    assert_eq!((r.sent, r.received), (1004, 4));
    assert_eq!(r.on(CopyEvent::ClientEof), CopyAction::ShutdownUpstream);
    // nothing more comes from a side that has ended
    assert_eq!(r.on(CopyEvent::ClientData(5)), CopyAction::Nothing);
    assert_eq!(r.on(CopyEvent::UpstreamData(6)), CopyAction::Nothing);
    assert_eq!((r.sent, r.received), (1004, 10));
    assert_eq!(r.on(CopyEvent::UpstreamEof), CopyAction::ShutdownClient);
    assert_eq!(r.on(CopyEvent::UpstreamData(7)), CopyAction::Nothing);
    assert_eq!((r.sent, r.received), (1004, 10));
    assert!(r.finished());
}

#[test]
fn byte_counters_stop_at_the_maximum() {
    let mut r = Relay::new();
    r.on(CopyEvent::ClientData(u64::MAX - 1));
    assert_eq!(r.sent, u64::MAX - 1);
    r.on(CopyEvent::ClientData(1));
    assert_eq!(r.sent, u64::MAX);
    r.on(CopyEvent::ClientData(9));
    assert_eq!(r.sent, u64::MAX);
    assert_eq!(r.received, 0);
    r.on(CopyEvent::UpstreamData(u64::MAX));
    r.on(CopyEvent::UpstreamData(u64::MAX));
    assert_eq!(r.received, u64::MAX);
}

#[test]
fn nothing_is_counted_after_a_failure() {
    let mut r = Relay::new();
    r.on(CopyEvent::ClientData(3));
    assert_eq!(r.on(CopyEvent::Failed), CopyAction::Abort);
    r.on(CopyEvent::ClientData(3));
    r.on(CopyEvent::UpstreamData(3));
    assert_eq!((r.sent, r.received), (3, 0));
}
