use catmodoro::display::band;
use catmodoro::display::label;
use catmodoro::display::percent;
use catmodoro::display::Band;
use catmodoro::timer::Timer;

const SECOND: u128 = 1_000_000_000;

#[test]
fn label_formats() {
    assert_eq!(label(125), "02:05");
    assert_eq!(label(45), "00:45");
    assert_eq!(label(3600), "60:00");
}

#[test]
fn label_edges() {
    assert_eq!(label(0), "00:00");
    assert_eq!(label(9), "00:09");
    assert_eq!(label(59), "00:59");
    assert_eq!(label(60), "01:00");
    assert_eq!(label(599), "09:59");
    assert_eq!(label(600), "10:00");
    assert_eq!(label(1500), "25:00");
    assert_eq!(label(5999), "99:59");
    assert_eq!(label(6000), "100:00");
    assert_eq!(label(86_400), "1440:00");
}

#[test]
fn label_of_the_longest_countdown() {
    assert_eq!(label(u64::MAX as u128 * 60), "18446744073709551615:00");
    assert_eq!(label(u64::MAX as u128 * 60 - 1), "18446744073709551614:59");
}

#[test]
fn label_agrees_with_std_formatting() {
    for r in [0u128, 1, 10, 61, 119, 754, 1234, 4321, 98_765, 1_000_000] {
        assert_eq!(label(r), format!("{:02}:{:02}", r / 60, r % 60));
    }
}

#[test]
fn band_boundaries() {
    assert_eq!(band(67, 100), Band::Plenty);
    assert_eq!(band(66, 100), Band::Halfway);
    assert_eq!(band(34, 100), Band::Halfway);
    assert_eq!(band(33, 100), Band::Urgent);
}

#[test]
fn band_goes_by_the_share_not_by_the_rounded_percentage() {
    assert_eq!(percent(133, 200), 66);
    assert_eq!(band(133, 200), Band::Plenty);
    assert_eq!(percent(67, 200), 33);
    assert_eq!(band(67, 200), Band::Halfway);
    assert_eq!(band(100, 100), Band::Plenty);
    assert_eq!(band(0, 100), Band::Urgent);
    assert_eq!(band(0, 0), Band::Urgent);
}

#[test]
fn percent_is_rounded_down() {
    assert_eq!(percent(1500, 1500), 100);
    assert_eq!(percent(1499, 1500), 99);
    assert_eq!(percent(750, 1500), 50);
    assert_eq!(percent(1, 1500), 0);
    assert_eq!(percent(0, 1500), 0);
    assert_eq!(percent(2, 3), 66);
    assert_eq!(percent(0, 0), 0);
}

#[test]
fn readout_of_a_new_timer_is_full() {
    for d in [1u64, 25, 90, 100_000] {
        let r = Timer::new(d, 3).readout(3);
        assert_eq!(r.remaining_secs, d as u128 * 60);
        assert_eq!(r.percent, 100);
        assert_eq!(r.band, Band::Plenty);
        assert_eq!(r.label, format!("{:02}:00", d));
    }
}

#[test]
fn readout_in_the_middle() {
    let t = Timer::new(25, 0);
    let r = t.readout(600 * SECOND + 1);
    assert_eq!(r.remaining_secs, 900);
    assert_eq!(r.percent, 60);
    assert_eq!(r.band, Band::Halfway);
    assert_eq!(r.label, "15:00");
    let r = t.readout(1375 * SECOND);
    assert_eq!(r.remaining_secs, 125);
    assert_eq!(r.percent, 8);
    assert_eq!(r.band, Band::Urgent);
    assert_eq!(r.label, "02:05");
}

#[test]
fn readout_past_the_end_is_empty() {
    let t = Timer::new(1, 0);
    for now in [60 * SECOND, 61 * SECOND, 1_000_000 * SECOND] {
        let r = t.readout(now);
        assert_eq!(r.remaining_secs, 0);
        assert_eq!(r.percent, 0);
        assert_eq!(r.band, Band::Urgent);
        assert_eq!(r.label, "00:00");
    }
}

#[test]
fn readout_of_a_timer_of_no_length() {
    let r = Timer::new(0, 0).readout(0);
    assert_eq!(r.remaining_secs, 0);
    assert_eq!(r.percent, 0);
    assert_eq!(r.band, Band::Urgent);
    assert_eq!(r.label, "00:00");
}

#[test]
fn readout_is_the_same_after_a_pause_of_five_seconds() {
    let mut t = Timer::new(25, 0);
    let before = t.readout(90 * SECOND);
    t.toggle_pause(90 * SECOND);
    assert_eq!(t.readout(93 * SECOND), before);
    t.toggle_pause(95 * SECOND);
    let after = t.readout(95 * SECOND);
    assert_eq!(after, before);
    assert_eq!(after.label, "23:30");
}

#[test]
fn readout_of_the_longest_countdown() {
    let r = Timer::new(u64::MAX, 0).readout(0);
    assert_eq!(r.percent, 100);
    assert_eq!(r.label, "18446744073709551615:00");
}
