use wiz_lights_rs::DiscoveryCollector;
use wiz_lights_rs::Ipv4;

#[test]
fn test_discovery_deduplicates_by_identifier() {
    let mut collector = DiscoveryCollector::new();
    // Two datagrams carrying the same identifier from different source
    // ports/addresses: the later sender wins.
    collector.note_datagram(
        b"{\"result\":{\"mac\":\"a1b2c3d4e5f6\"}}",
        Some(Ipv4::new(192, 168, 1, 20)),
    );
    collector.note_datagram(
        b"{\"result\":{\"mac\":\"a1b2c3d4e5f6\"}}",
        Some(Ipv4::new(192, 168, 1, 21)),
    );
    let bulbs = collector.bulbs();
    assert_eq!(bulbs.len(), 1);
    assert_eq!(bulbs[0].mac, "a1b2c3d4e5f6");
    assert_eq!(bulbs[0].ip, Ipv4::new(192, 168, 1, 21));
}

#[test]
fn test_silent_scan_yields_empty_set() {
    let collector = DiscoveryCollector::new();
    assert!(collector.bulbs().is_empty());
}

#[test]
fn distinct_identifiers_each_get_an_entry() {
    let mut collector = DiscoveryCollector::new();
    collector.note_datagram(b"{\"result\":{\"mac\":\"aaaaaaaaaaaa\"}}", Some(Ipv4::new(10, 0, 0, 1)));
    collector.note_datagram(b"{\"result\":{\"mac\":\"bbbbbbbbbbbb\"}}", Some(Ipv4::new(10, 0, 0, 2)));
    let bulbs = collector.bulbs();
    assert_eq!(bulbs.len(), 2);
}

#[test]
fn noise_is_silently_skipped() {
    let mut collector = DiscoveryCollector::new();
    collector.note_datagram(b"junk", Some(Ipv4::new(10, 0, 0, 1)));
    collector.note_datagram(&[0xff, 0x00, 0x80], Some(Ipv4::new(10, 0, 0, 1)));
    collector.note_datagram(b"{\"result\":{}}", Some(Ipv4::new(10, 0, 0, 1)));
    // A well-formed reply from a non-IPv4 sender is skipped too.
    collector.note_datagram(b"{\"result\":{\"mac\":\"cccccccccccc\"}}", None);
    assert!(collector.bulbs().is_empty());
}

#[test]
fn discovered_bulb_becomes_a_light() {
    let mut collector = DiscoveryCollector::new();
    collector.note_datagram(b"{\"result\":{\"mac\":\"a1b2c3d4e5f6\"}}", Some(Ipv4::new(10, 0, 0, 3)));
    let bulbs = collector.bulbs();
    let light = bulbs[0].clone().into_light(Some("hall"));
    assert_eq!(light.ip(), Ipv4::new(10, 0, 0, 3));
    assert_eq!(light.name().map(|n| n.as_str()), Some("hall"));
    assert!(light.status().is_none());
}
