use nihav_core::timestamp::{reduce_timebase, NATimeInfo};

#[test]
fn reduce_timebase_values() {
    assert_eq!(reduce_timebase(0, 25), (0, 25));
    assert_eq!(reduce_timebase(0, 0), (0, 0));
    assert_eq!(reduce_timebase(2, 50), (1, 25));
    assert_eq!(reduce_timebase(1001, 30000), (1001, 30000));
    assert_eq!(reduce_timebase(6, 9), (2, 3));
    assert_eq!(reduce_timebase(1000, 48000), (1, 48));
    assert_eq!(reduce_timebase(4, 0), (1, 0));
    assert_eq!(reduce_timebase(12, 8), (3, 2));
}

#[test]
fn reduce_timebase_is_idempotent() {
    for &(n, d) in &[(6u32, 9u32), (0, 7), (1000, 48000), (12, 8), (17, 0), (360, 84)] {
        let once = reduce_timebase(n, d);
        assert_eq!(reduce_timebase(once.0, once.1), once);
    }
}

#[test]
fn time_to_ts_and_back() {
    assert_eq!(NATimeInfo::time_to_ts(5000, 1000, 1, 25), 125);
    assert_eq!(NATimeInfo::ts_to_time(125, 1000, 1, 25), 5000);
    assert_eq!(NATimeInfo::time_to_ts(1500, 1000, 1001, 30000), 44);
    assert_eq!(NATimeInfo::ts_to_time(44, 1000, 1001, 30000), 1468);
    for t in [0u64, 1, 999, 123456789, u64::MAX / 1000] {
        let ts = NATimeInfo::time_to_ts(t, 1000, 1, 1000);
        assert_eq!(NATimeInfo::ts_to_time(ts, 1000, 1, 1000), t);
    }
}

#[test]
fn conversions_near_the_limit() {
    let edge = u64::MAX / 1000 + 1;
    let mut last = 0u64;
    for t in [edge, edge + 1, edge + 999, edge + 1000, u64::MAX - 1, u64::MAX] {
        let back = NATimeInfo::ts_to_time(NATimeInfo::time_to_ts(t, 1000, 1, 1000), 1000, 1, 1000);
        assert!(back >= last);
        assert!(back <= t);
        assert_eq!(back, t / 1000 * 1000);
        last = back;
    }
    assert_eq!(NATimeInfo::time_to_ts(u64::MAX, 1, 1, 2), u64::MAX);
    assert_eq!(NATimeInfo::ts_to_time(u64::MAX, 2, 3, 1), u64::MAX);
    assert_eq!(NATimeInfo::ts_to_time(u64::MAX / 2, 2, 3, 4), (u64::MAX / 2 * 2) / 4 * 3);
}

#[test]
fn time_info_fields() {
    let mut ti = NATimeInfo::new(Some(1), None, Some(3), 1, 25);
    assert_eq!(ti.get_pts(), Some(1));
    assert_eq!(ti.get_dts(), None);
    assert_eq!(ti.get_duration(), Some(3));
    ti.set_pts(None);
    ti.set_dts(Some(7));
    ti.set_duration(None);
    assert_eq!(ti.get_pts(), None);
    assert_eq!(ti.get_dts(), Some(7));
    assert_eq!(ti.get_duration(), None);
    assert_eq!(ti.tb_den, 25);
}
