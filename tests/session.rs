use packet_sniffer::capture::{LoopControl, PacketSniffer, Phase};
use packet_sniffer::classify::ProtocolTag;
use packet_sniffer::interface::{resolve, CaptureError, NetworkInterface};
use packet_sniffer::stats::StatsTable;

fn iface(name: &str, index: u32) -> NetworkInterface {
    NetworkInterface { name: name.to_string(), index }
}

fn system_list() -> Vec<NetworkInterface> {
    vec![iface("eth0", 2), iface("wlan0", 3)]
}

fn frame(ethertype: u16) -> Vec<u8> {
    let mut f = vec![0u8; 12];
    f.push((ethertype >> 8) as u8);
    f.push((ethertype & 0xff) as u8);
    f.extend_from_slice(&[0x45, 0, 0, 20]);
    f
}

fn capturing_session() -> PacketSniffer {
    let mut s = PacketSniffer::new("eth0");
    let found = s.begin(&system_list()).unwrap();
    assert_eq!(found.name, "eth0");
    assert_eq!(found.index, 2);
    assert_eq!(s.phase, Phase::Resolving);
    s.channel_opened(true);
    assert_eq!(s.phase, Phase::Capturing);
    s
}

#[test]
fn new_session_is_idle_and_empty() {
    let s = PacketSniffer::new("wlan0");
    assert_eq!(s.interface, "wlan0");
    assert_eq!(s.phase, Phase::Idle);
    assert!(s.stats.snapshot().is_empty());
    assert_eq!(s.exit_status(), None);
}

#[test]
fn three_frames_give_two_ipv4_and_one_arp() {
    let mut s = capturing_session();
    for e in [0x0800u16, 0x0806, 0x0800] {
        let f = frame(e);
        assert_eq!(s.on_pull(false, Some(&f[..])), LoopControl::Continue);
    }
    assert_eq!(s.on_pull(true, None), LoopControl::Stop);
    assert_eq!(s.phase, Phase::Stopping);
    let report = s.report().unwrap();
    assert_eq!(report, vec![(ProtocolTag::Ipv4, 2), (ProtocolTag::Arp, 1)]);
    assert_eq!(s.phase, Phase::Reported);
    assert_eq!(s.exit_status(), Some(0));
}

#[test]
fn missing_interface_is_not_found_with_status_one() {
    let mut s = PacketSniffer::new("doesnotexist0");
    let r = s.begin(&system_list());
    assert_eq!(r.unwrap_err(), CaptureError::InterfaceNotFound);
    assert_eq!(s.phase, Phase::Failed);
    assert_eq!(s.exit_status(), Some(1));
    s.channel_opened(true);
    assert_eq!(s.phase, Phase::Failed);
    let f = frame(0x0800);
    assert_eq!(s.on_pull(false, Some(&f[..])), LoopControl::Stop);
    assert_eq!(s.stats.count(ProtocolTag::Ipv4), 0);
}

#[test]
fn lookup_is_exact_and_case_sensitive() {
    let list = system_list();
    assert_eq!(resolve("ETH0", &list).unwrap_err(), CaptureError::InterfaceNotFound);
    assert_eq!(resolve("eth", &list).unwrap_err(), CaptureError::InterfaceNotFound);
    assert_eq!(resolve("", &list).unwrap_err(), CaptureError::InterfaceNotFound);
    assert_eq!(resolve("eth0", &vec![]).unwrap_err(), CaptureError::InterfaceNotFound);
    assert_eq!(resolve("wlan0", &list).unwrap().index, 3);
}

#[test]
fn lookup_takes_the_first_match() {
    let list = vec![iface("lo", 1), iface("eth0", 7), iface("eth0", 9)];
    assert_eq!(resolve("eth0", &list).unwrap().index, 7);
}

#[test]
fn channel_open_failure_fails_the_session() {
    let mut s = PacketSniffer::new("eth0");
    assert!(s.begin(&system_list()).is_ok());
    s.channel_opened(false);
    assert_eq!(s.phase, Phase::Failed);
    assert_eq!(s.exit_status(), Some(1));
    assert!(s.report().is_none());
}

#[test]
fn nothing_is_counted_once_stop_is_seen() {
    let mut s = capturing_session();
    let ipv4 = frame(0x0800);
    assert_eq!(s.on_pull(false, Some(&ipv4[..])), LoopControl::Continue);
    assert_eq!(s.on_pull(true, Some(&ipv4[..])), LoopControl::Stop);
    assert_eq!(s.on_pull(false, Some(&ipv4[..])), LoopControl::Stop);
    assert_eq!(s.stats.count(ProtocolTag::Ipv4), 1);
    assert_eq!(s.phase, Phase::Stopping);
}

#[test]
fn read_errors_count_nothing_and_continue() {
    let mut s = capturing_session();
    assert_eq!(s.on_pull(false, None), LoopControl::Continue);
    assert_eq!(s.on_pull(false, None), LoopControl::Continue);
    assert!(s.stats.snapshot().is_empty());
    assert_eq!(s.phase, Phase::Capturing);
}

#[test]
fn short_frames_are_counted_as_unknown() {
    let mut s = capturing_session();
    assert_eq!(s.on_pull(false, Some(&[0u8, 1, 2][..])), LoopControl::Continue);
    assert_eq!(s.on_pull(false, Some(&[][..])), LoopControl::Continue);
    assert_eq!(s.stats.count(ProtocolTag::Unknown), 2);
}

#[test]
fn report_is_handed_out_once() {
    let mut s = capturing_session();
    let f = frame(0x0806);
    s.on_pull(false, Some(&f[..]));
    assert!(s.report().is_none());
    s.on_pull(true, None);
    assert_eq!(s.report(), Some(vec![(ProtocolTag::Arp, 1)]));
    assert_eq!(s.report(), None);
}

#[test]
fn process_packet_counts_each_frame() {
    let mut s = PacketSniffer::new("eth0");
    s.process_packet(&frame(0x0806));
    s.process_packet(&frame(0x0806));
    s.process_packet(&frame(0x9000));
    assert_eq!(s.stats.count(ProtocolTag::Arp), 2);
    assert_eq!(s.stats.count(ProtocolTag::Unknown), 1);
    assert_eq!(s.stats.count(ProtocolTag::Ipv4), 0);
}

#[test]
fn counts_sum_to_frames_recorded() {
    let mut t = StatsTable::new();
    let tags = [
        ProtocolTag::Arp,
        ProtocolTag::Ipv4,
        ProtocolTag::Unknown,
        ProtocolTag::Ipv4,
        ProtocolTag::Ipv4,
    ];
    for tag in tags {
        t.record(tag);
    }
    let sum: usize = t.snapshot().iter().map(|e| e.1).sum();
    assert_eq!(sum, tags.len());
    assert_eq!(
        t.snapshot(),
        vec![(ProtocolTag::Arp, 1), (ProtocolTag::Ipv4, 3), (ProtocolTag::Unknown, 1)]
    );
}

#[test]
fn snapshot_is_not_changed_by_later_records() {
    let mut t = StatsTable::new();
    t.record(ProtocolTag::Ipv4);
    let before = t.snapshot();
    t.record(ProtocolTag::Ipv4);
    t.record(ProtocolTag::Arp);
    assert_eq!(before, vec![(ProtocolTag::Ipv4, 1)]);
    assert_eq!(t.count(ProtocolTag::Ipv4), 2);
}
