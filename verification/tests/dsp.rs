use myvid::engine::dsp::{centre_index, AudioFx, Lift};
use myvid::engine::gst::split_volume;
use myvid::engine::AudioEffects;

const FIVE_ONE: u64 = 0b11_1111; // FL FR FC LFE RL RR

#[test]
fn finds_the_centre_channel() {
    assert_eq!(centre_index(6, FIVE_ONE), Some(2));
    assert_eq!(centre_index(2, 0b11), None);
    // 4.0 without a centre.
    assert_eq!(centre_index(4, 0b11_0011), None);
    // Unpositioned channels give nothing to go on.
    assert_eq!(centre_index(6, 0), None);
}

#[test]
fn the_centre_is_counted_from_the_positions_below_it() {
    // Centre alone among the front channels, then only one of them below it.
    assert_eq!(centre_index(3, 0b1_1100), Some(0));
    assert_eq!(centre_index(3, 0b101), Some(1));
    assert_eq!(centre_index(3, 0b111), Some(2));
}

#[test]
fn sound_is_untouched_when_everything_is_off() {
    let mut fx = AudioFx::default();
    assert!(!fx.is_active());
    for volume in [0, 60, 100] {
        fx.set_boost(split_volume(volume).1);
        assert!(!fx.is_active());
    }
    fx.set_boost(split_volume(101).1);
    assert!(fx.is_active());
    fx.set_boost(0);
    assert_eq!(fx.boost, 100);
    fx.set_effects(AudioEffects { dialogue: false, night: true });
    assert!(fx.is_active());
}

#[test]
fn clear_dialogue_leaves_a_track_without_a_centre_untouched() {
    let mut fx = AudioFx::default();
    fx.set_effects(AudioEffects { dialogue: true, night: false });
    for (channels, mask) in [(1, 0), (2, 0b11), (4, 0b11_0011), (6, 0)] {
        fx.set_format(channels, 48_000, mask);
        assert!(!fx.is_active());
    }
    fx.set_format(6, 48_000, FIVE_ONE);
    assert!(fx.is_active());
    fx.set_format(2, 48_000, 0b11);
    fx.set_effects(AudioEffects { dialogue: true, night: true });
    assert!(fx.is_active());
}

#[test]
fn only_the_centre_is_raised() {
    let mut fx = AudioFx::default();
    fx.set_format(6, 48_000, FIVE_ONE);
    assert_eq!(fx.lift(2), Lift::Keep);
    fx.set_effects(AudioEffects { dialogue: true, night: false });
    let lifts: Vec<Lift> = (0..6).map(|channel| fx.lift(channel)).collect();
    assert_eq!(
        lifts,
        [Lift::Lower, Lift::Lower, Lift::Raise, Lift::Lower, Lift::Lower, Lift::Lower]
    );
    fx.set_format(2, 0, 0b11);
    assert_eq!((fx.channels, fx.rate, fx.centre), (2, 1, None));
    assert_eq!(fx.lift(0), Lift::Keep);
    fx.set_format(0, 44_100, 0);
    assert_eq!((fx.channels, fx.rate), (1, 44_100));
}
