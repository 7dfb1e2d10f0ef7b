use tanakai::utils::clock::{now_millis, timestamp_from};
use tanakai::utils::network::{
    find_default_interface, interface_is_loopback, is_photon_packet, NetworkInterface,
};

fn interface(name: &str, description: Option<&str>) -> NetworkInterface {
    NetworkInterface { name: name.to_string(), description: description.map(str::to_string) }
}

#[test]
fn photon_signature_needs_a_whole_header() {
    assert!(!is_photon_packet(&[]));
    assert!(!is_photon_packet(&[0, 0, 0, 1, 0, 0, 0, 0, 0, 0, 0]));
    assert!(is_photon_packet(&[0, 0, 0, 1, 0, 0, 0, 0, 0, 0, 0, 0]));
}

#[test]
fn photon_signature_bounds_flags_and_count() {
    let packet = |flags: u8, count: u8| vec![7, 7, flags, count, 0, 0, 0, 0, 0, 0, 0, 0, 1, 2];
    assert!(is_photon_packet(&packet(0, 1)));
    assert!(is_photon_packet(&packet(9, 19)));
    assert!(!is_photon_packet(&packet(10, 1)));
    assert!(!is_photon_packet(&packet(0, 0)));
    assert!(!is_photon_packet(&packet(0, 20)));
    assert!(!is_photon_packet(&packet(255, 255)));
}

#[test]
fn loopback_is_told_by_name() {
    assert!(interface_is_loopback(&interface("loop0", None)));
    assert!(interface_is_loopback(&interface("myloopy", Some("Ethernet"))));
    assert!(!interface_is_loopback(&interface("lo", None)));
    assert!(!interface_is_loopback(&interface("Loop", None)));
    assert!(!interface_is_loopback(&interface("eth0", Some("Ethernet"))));
}

#[test]
fn loopback_is_told_by_description_in_any_case() {
    assert!(interface_is_loopback(&interface("lo", Some("Software Loopback Interface 1"))));
    assert!(interface_is_loopback(&interface("x", Some("LOOPBACK"))));
    assert!(!interface_is_loopback(&interface("x", Some("loop back"))));
    assert!(!interface_is_loopback(&interface("x", Some("Loop"))));
}

#[test]
fn the_default_interface_is_the_first_that_is_no_loopback() {
    let interfaces = vec![
        interface("loop0", None),
        interface("lo", Some("Loopback")),
        interface("eth0", None),
        interface("eth1", None),
    ];
    assert_eq!(find_default_interface(&interfaces), Some(2));
}

#[test]
fn the_default_interface_is_the_first_where_all_are_loopback() {
    let interfaces = vec![interface("loop0", None), interface("loop1", None)];
    assert_eq!(find_default_interface(&interfaces), Some(0));
}

#[test]
fn there_is_no_default_interface_without_interfaces() {
    assert_eq!(find_default_interface(&Vec::new()), None);
}

#[test]
fn a_reading_of_the_clock_gives_its_milliseconds() {
    assert_eq!(timestamp_from(Some(0)), 0);
    assert_eq!(timestamp_from(Some(1_700_000_000_123)), 1_700_000_000_123);
    assert_eq!(timestamp_from(Some(u64::MAX as u128)), u64::MAX);
}

#[test]
fn a_reading_too_large_is_cut_to_64_bits() {
    assert_eq!(timestamp_from(Some(u64::MAX as u128 + 1)), 0);
    assert_eq!(timestamp_from(Some((1u128 << 64) + 7)), 7);
    assert_eq!(timestamp_from(Some(u128::MAX)), u64::MAX);
}

#[test]
fn a_clock_before_the_epoch_reads_zero() {
    assert_eq!(timestamp_from(None), 0);
}

#[test]
fn the_time_now_does_not_run_backwards_far() {
    let first = now_millis();
    let second = now_millis();
    assert!(first > 1_600_000_000_000);
    assert!(second + 60_000 > first);
}
