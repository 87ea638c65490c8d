use led_preview::effect::{frame_or_exhausted, Effect, EffectKind, FrameError, TIMER_PERIOD_MILLIS};
use led_preview::Color;

const ALL_KINDS: [EffectKind; 15] = [
    EffectKind::Bounce,
    EffectKind::Rainbow,
    EffectKind::Breathe,
    EffectKind::Cycle,
    EffectKind::Fire,
    EffectKind::Meteor,
    EffectKind::RunningLights,
    EffectKind::Cylon,
    EffectKind::Timer,
    EffectKind::Twinkle,
    EffectKind::Sparkle,
    EffectKind::SnowSparkle,
    EffectKind::Wipe,
    EffectKind::Christmas,
    EffectKind::Collision,
];

#[test]
fn a_missing_frame_is_reported_as_exhaustion() {
    assert_eq!(
        frame_or_exhausted(None, EffectKind::Fire),
        Err(FrameError::Exhausted(EffectKind::Fire))
    );
    assert_eq!(
        frame_or_exhausted(None, EffectKind::Bounce),
        Err(FrameError::Exhausted(EffectKind::Bounce))
    );
}

#[test]
fn a_frame_is_handed_on_unchanged() {
    let frame = vec![Color::new(1, 2, 3), Color::new(4, 5, 6)];
    assert_eq!(frame_or_exhausted(Some(frame.clone()), EffectKind::Wipe), Ok(frame));
    assert_eq!(frame_or_exhausted(Some(Vec::new()), EffectKind::Wipe), Ok(Vec::new()));
}

#[test]
fn an_effect_is_of_the_kind_it_was_built_as() {
    for kind in ALL_KINDS {
        assert_eq!(Effect::new(kind, 55).kind(), kind);
    }
}

#[test]
fn every_kind_yields_frames_of_the_length_it_was_built_for() {
    for pixel_count in [7usize, 8, 55, 60, 144] {
        for kind in ALL_KINDS {
            let mut effect = Effect::new(kind, pixel_count);
            for _ in 0..50 {
                let frame = effect.next_frame().unwrap();
                assert_eq!(frame.len(), pixel_count);
            }
            assert_eq!(effect.kind(), kind);
        }
    }
}

#[test]
fn the_shortest_strip_survives_many_frames() {
    for kind in ALL_KINDS {
        let mut effect = Effect::new(kind, 7);
        for _ in 0..3000 {
            assert_eq!(effect.next_frame().unwrap().len(), 7);
        }
    }
}

#[test]
fn the_countdown_period_is_five_seconds() {
    assert_eq!(TIMER_PERIOD_MILLIS, 5_000);
}

#[test]
fn the_cylon_eye_is_red() {
    let mut effect = Effect::new(EffectKind::Cylon, 55);
    let frame = effect.next_frame().unwrap();
    for i in 1..5 {
        assert_eq!(frame[i], Color::new(255, 0, 0));
    }
    assert_eq!(frame[0].green, 0);
    assert_eq!(frame[0].blue, 0);
    assert!(frame[0].red > 0);
    assert_eq!(frame[20], Color::new(0, 0, 0));
}

#[test]
fn the_wipe_is_green_and_runs_forward() {
    let mut effect = Effect::new(EffectKind::Wipe, 10);
    let first = effect.next_frame().unwrap();
    assert!(first.iter().all(|c| *c == Color::new(0, 0, 0)));
    let second = effect.next_frame().unwrap();
    assert_eq!(second[9], Color::new(0, 255, 0));
    assert_eq!(second[8], Color::new(0, 0, 0));
    let mut last = second;
    for _ in 0..9 {
        last = effect.next_frame().unwrap();
    }
    assert!(last.iter().all(|c| *c == Color::new(0, 255, 0)));
}

#[test]
fn the_countdown_starts_full_and_blue() {
    let mut effect = Effect::new(EffectKind::Timer, 55);
    let frame = effect.next_frame().unwrap();
    assert!(frame.iter().all(|c| *c == Color::new(0, 0, 255)));
}

#[test]
fn the_meteor_starts_white_at_the_head_of_the_strip() {
    let mut effect = Effect::new(EffectKind::Meteor, 55);
    let frame = effect.next_frame().unwrap();
    assert_eq!(frame[0], Color::new(255, 255, 255));
    assert_eq!(frame[54], Color::new(0, 0, 0));
}

#[test]
fn the_sparkles_are_white_and_the_snow_is_grey() {
    let mut sparkle = Effect::new(EffectKind::Sparkle, 55);
    let mut snow = Effect::new(EffectKind::SnowSparkle, 55);
    for _ in 0..100 {
        let frame = sparkle.next_frame().unwrap();
        assert!(frame.iter().all(|c| c.red == c.green && c.green == c.blue));
        let frame = snow.next_frame().unwrap();
        assert!(frame.iter().all(|c| c.red == c.green && c.green == c.blue));
        assert!(frame.iter().all(|c| c.red >= 51));
    }
}

#[test]
fn the_christmas_background_is_green() {
    let mut effect = Effect::new(EffectKind::Christmas, 55);
    let frame = effect.next_frame().unwrap();
    let background = frame.iter().filter(|c| **c == Color::new(6, 108, 22)).count();
    assert!(background >= 52);
}

#[test]
fn the_fire_burns_from_red_through_yellow_to_white() {
    let mut effect = Effect::new(EffectKind::Fire, 55);
    for _ in 0..200 {
        let frame = effect.next_frame().unwrap();
        assert!(frame.iter().all(|c| c.red >= c.green && c.green >= c.blue));
    }
}

#[test]
fn the_running_lights_are_white_waves_that_move() {
    let mut effect = Effect::new(EffectKind::RunningLights, 55);
    let first = effect.next_frame().unwrap();
    let second = effect.next_frame().unwrap();
    assert!(first.iter().all(|c| c.red == c.green && c.green == c.blue));
    assert_ne!(first, second);
    assert_eq!(first[1], second[0]);
}

#[test]
fn breathe_and_cycle_light_the_whole_strip_alike() {
    for kind in [EffectKind::Breathe, EffectKind::Cycle] {
        let mut effect = Effect::new(kind, 55);
        for _ in 0..20 {
            let frame = effect.next_frame().unwrap();
            assert!(frame.iter().all(|c| *c == frame[0]));
        }
    }
}

#[test]
fn the_rainbow_spreads_the_hues_over_the_strip() {
    let mut effect = Effect::new(EffectKind::Rainbow, 55);
    let frame = effect.next_frame().unwrap();
    assert_ne!(frame[0], frame[18]);
    assert_ne!(frame[18], frame[36]);
    assert!(frame.iter().all(|c| c.red == 255 || c.green == 255 || c.blue == 255));
}

#[test]
fn twinkle_bounce_and_collision_keep_running() {
    for kind in [EffectKind::Twinkle, EffectKind::Bounce, EffectKind::Collision] {
        let mut effect = Effect::new(kind, 55);
        for _ in 0..500 {
            assert_eq!(effect.next_frame().unwrap().len(), 55);
        }
    }
}
