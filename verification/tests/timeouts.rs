use connect_timeout::{AddressFamily, SocketAddress, TimeVal, Timeout};

#[test]
fn deadline_splits_seconds_and_microseconds() {
    assert_eq!(Timeout::new(0, 0).deadline(), TimeVal { tv_sec: 0, tv_usec: 0 });
    assert_eq!(Timeout::new(0, 200_000_000).deadline(), TimeVal { tv_sec: 0, tv_usec: 200_000 });
    assert_eq!(Timeout::new(1, 500_000_000).deadline(), TimeVal { tv_sec: 1, tv_usec: 500_000 });
    assert_eq!(Timeout::new(3, 999_999_999).deadline(), TimeVal { tv_sec: 3, tv_usec: 999_999 });
    assert_eq!(Timeout::new(42, 0).deadline(), TimeVal { tv_sec: 42, tv_usec: 0 });
}

#[test]
fn deadline_rounds_down_to_whole_microseconds() {
    assert_eq!(Timeout::new(0, 999).deadline(), TimeVal { tv_sec: 0, tv_usec: 0 });
    assert_eq!(Timeout::new(0, 1_000).deadline(), TimeVal { tv_sec: 0, tv_usec: 1 });
    assert_eq!(Timeout::new(0, 1_999).deadline(), TimeVal { tv_sec: 0, tv_usec: 1 });
    assert_eq!(Timeout::new(7, 123_456_789).deadline(), TimeVal { tv_sec: 7, tv_usec: 123_456 });
}

#[test]
fn deadline_carries_whole_seconds_out_of_the_nanoseconds() {
    assert_eq!(Timeout::new(0, 1_000_000_000).deadline(), TimeVal { tv_sec: 1, tv_usec: 0 });
    assert_eq!(Timeout::new(2, 3_500_000_000).deadline(), TimeVal { tv_sec: 5, tv_usec: 500_000 });
    assert_eq!(
        Timeout::new(0, u32::MAX).deadline(),
        TimeVal { tv_sec: 4, tv_usec: 294_967 }
    );
}

#[test]
fn deadline_stops_at_the_longest_there_is() {
    let longest = TimeVal { tv_sec: i64::MAX, tv_usec: 999_999 };
    assert_eq!(
        Timeout::new(i64::MAX as u64, 999_999_999).deadline(),
        TimeVal { tv_sec: i64::MAX, tv_usec: 999_999 }
    );
    assert_eq!(
        Timeout::new(i64::MAX as u64, 5_000).deadline(),
        TimeVal { tv_sec: i64::MAX, tv_usec: 5 }
    );
    assert_eq!(Timeout::new(i64::MAX as u64, 1_000_000_000).deadline(), longest);
    assert_eq!(Timeout::new(i64::MAX as u64 + 1, 0).deadline(), longest);
    assert_eq!(Timeout::new(u64::MAX, 0).deadline(), longest);
    assert_eq!(Timeout::new(u64::MAX, u32::MAX).deadline(), longest);
}

#[test]
fn timeout_keeps_its_parts() {
    let timeout = Timeout::new(12, 34);
    assert_eq!(timeout.secs, 12);
    assert_eq!(timeout.subsec_nanos, 34);
}

#[test]
fn family_follows_the_address() {
    let v4 = SocketAddress::V4 { ip: 0xc0a8_0001, port: 80 };
    let v6 = SocketAddress::V6 { ip: 1, port: 8443, flowinfo: 0, scope_id: 0 };
    assert_eq!(v4.family(), AddressFamily::Inet);
    assert_eq!(v6.family(), AddressFamily::Inet6);
}
