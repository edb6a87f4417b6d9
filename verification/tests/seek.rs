use myvid::engine::seek::{clamp_target, known_duration, Seeks};
use myvid::engine::Duration;

fn secs(n: u64) -> Duration {
    Duration::from_secs(n)
}

#[test]
fn seeks_stay_two_seconds_short_of_the_end() {
    assert_eq!(clamp_target(secs(100), Some(secs(100))), secs(98));
    assert_eq!(clamp_target(secs(500), Some(secs(100))), secs(98));
    assert_eq!(clamp_target(secs(97), Some(secs(100))), secs(97));
    assert_eq!(clamp_target(secs(500), None), secs(500));
}

#[test]
fn seeks_in_short_media_stay_inside_it_too() {
    let short = Some(Duration::from_millis(1_500));
    for to in [0, 200, 750, 1_000, 1_499] {
        assert_eq!(
            clamp_target(Duration::from_millis(to), short),
            Duration::from_millis(to)
        );
    }
    for to in [1_500, 1_501, 60_000] {
        assert_eq!(
            clamp_target(Duration::from_millis(to), short),
            Duration { nanos: 1_499_999_999 }
        );
    }
    assert_eq!(clamp_target(secs(5), Some(secs(2))), Duration { nanos: 1_999_999_999 });
    assert_eq!(clamp_target(secs(1), Some(secs(2))), secs(1));
    assert_eq!(clamp_target(secs(5), Some(Duration { nanos: 1 })), Duration::zero());
}

#[test]
fn no_length_at_all_means_that_it_is_not_known() {
    assert_eq!(known_duration(Some(0)), None);
    assert_eq!(known_duration(None), None);
    assert_eq!(known_duration(Some(7)), Some(Duration { nanos: 7 }));
}

#[test]
fn a_drag_sends_one_seek_and_then_the_newest() {
    let mut seeks = Seeks::idle();
    let total = Some(secs(3_600));
    assert_eq!(seeks.seek(secs(1), total), Some(secs(1)));
    for n in 2..80 {
        assert_eq!(seeks.seek(secs(n), total), None);
    }
    assert_eq!(seeks.seek_settled(), Some(secs(79)));
    assert!(seeks.seeking);
    assert_eq!(seeks.seek_settled(), None);
    assert_eq!(seeks, Seeks::idle());
}

#[test]
fn a_refused_seek_lets_the_next_one_through() {
    let mut seeks = Seeks::idle();
    assert!(seeks.seek(secs(1), None).is_some());
    seeks.seek_refused();
    assert_eq!(seeks.seek(secs(2), None), Some(secs(2)));
}
