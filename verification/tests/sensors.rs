use cliff_rover::cliff::CliffFlags;
use cliff_rover::cliff::Corner;
use cliff_rover::CLIFF_THRESHOLD;

#[test]
fn successful_read_decides_flag_by_threshold() {
    let mut f = CliffFlags::startup();
    f.record_reading(Corner::FrontLeft, Some(CLIFF_THRESHOLD + 1));
    assert!(f.flag(Corner::FrontLeft));
    f.record_reading(Corner::FrontLeft, Some(CLIFF_THRESHOLD));
    assert!(!f.flag(Corner::FrontLeft));
    f.record_reading(Corner::FrontLeft, Some(0));
    assert!(!f.flag(Corner::FrontLeft));
    f.record_reading(Corner::FrontLeft, Some(u16::MAX));
    assert!(f.flag(Corner::FrontLeft));
}

#[test]
fn failed_read_keeps_the_flag() {
    let mut f = CliffFlags::startup();
    f.record_reading(Corner::BackRight, None);
    assert!(f.flag(Corner::BackRight));
    f.record_reading(Corner::BackRight, Some(3));
    assert!(!f.flag(Corner::BackRight));
    f.record_reading(Corner::BackRight, None);
    assert!(!f.flag(Corner::BackRight));
}

#[test]
fn a_reading_touches_only_its_corner() {
    let corners =
        [Corner::BackRight, Corner::FrontRight, Corner::FrontLeft, Corner::BackLeft];
    for &written in &corners {
        let mut f = CliffFlags::startup();
        f.record_reading(written, Some(1));
        for &read in &corners {
            assert_eq!(f.flag(read), read != written);
        }
    }
}

#[test]
fn aggregate_predicates() {
    let mut f = CliffFlags::startup();
    assert!(f.all_blocked());
    assert!(!f.all_clear());
    f.record_reading(Corner::FrontRight, Some(2));
    assert!(!f.all_blocked());
    assert!(!f.all_clear());
    f.record_reading(Corner::BackRight, Some(2));
    f.record_reading(Corner::FrontLeft, Some(2));
    f.record_reading(Corner::BackLeft, Some(2));
    assert!(f.all_clear());
    assert!(!f.all_blocked());
}
