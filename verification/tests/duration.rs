use rustlog::duration::HumanDuration;
use std::time::Duration as StdDuration;

fn shown(d: StdDuration) -> String {
    HumanDuration(d.as_nanos()).to_string()
}

#[test]
fn human_duration_formats_all_ranges() {
    assert_eq!(shown(StdDuration::from_nanos(500)), "500 ns");
    assert_eq!(shown(StdDuration::from_nanos(1_500)), "1 us");
    assert_eq!(shown(StdDuration::from_nanos(1_234_000)), "1.234 ms");
    assert_eq!(shown(StdDuration::from_millis(1_234)), "1.234 s");
    assert_eq!(shown(StdDuration::from_secs(65)), "1m05.000s");
    assert_eq!(
        shown(StdDuration::from_secs(3 * 3600 + 7 * 60 + 5)),
        "3h07m05.000s"
    );
    assert_eq!(
        shown(StdDuration::from_secs(2 * 86_400 + 5)),
        "2d 00h00m05.000s"
    );
}

#[test]
fn human_duration_at_the_edges_of_each_range() {
    let at = |n: u128| HumanDuration(n).to_string();
    assert_eq!(at(0), "0 ns");
    assert_eq!(at(999), "999 ns");
    assert_eq!(at(1_000), "1 us");
    assert_eq!(at(999_999), "999 us");
    assert_eq!(at(1_000_000), "1.000 ms");
    assert_eq!(at(1_000_999), "1.000 ms");
    assert_eq!(at(1_001_000), "1.001 ms");
    assert_eq!(at(999_999_999), "999.999 ms");
    assert_eq!(at(1_000_000_000), "1.000 s");
    assert_eq!(at(59_999_999_999), "59.999 s");
    assert_eq!(at(60_000_000_000), "1m00.000s");
    assert_eq!(at(3_599_999_000_000), "59m59.999s");
    assert_eq!(at(3_600_000_000_000), "1h00m00.000s");
    assert_eq!(at(86_399_999_000_000), "23h59m59.999s");
    assert_eq!(at(86_400_000_000_000), "1d 00h00m00.000s");
    assert_eq!(at(90_061_001_000_000), "1d 01h01m01.001s");
    assert_eq!(
        at(u128::MAX),
        "3938453320844195178974243d 03h23m51.768s"
    );
}

#[test]
fn human_duration_is_appended() {
    let mut s = String::from("took ");
    HumanDuration(1_234_000).fmt(&mut s);
    assert_eq!(s, "took 1.234 ms");
}

#[test]
fn elapsed_time_does_not_go_below_nothing() {
    assert_eq!(HumanDuration::between(5, 12), HumanDuration(7));
    assert_eq!(HumanDuration::between(12, 12), HumanDuration(0));
    assert_eq!(HumanDuration::between(12, 5), HumanDuration(0));
    assert_eq!(HumanDuration::between(0, u128::MAX), HumanDuration(u128::MAX));
    assert_eq!(rustlog::duration::took_message(1_000, 2_500), "took 1 us");
    assert_eq!(rustlog::duration::took_message(9, 3), "took 0 ns");
}
