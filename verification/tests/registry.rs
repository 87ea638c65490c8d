use led_preview::registry::{kind_in, slot_of, EffectRegistry, FALLBACK_SLOT, REGISTRY_SIZE};
use led_preview::{EffectKind, Frame};

const BY_SLOT: [EffectKind; 15] = [
    EffectKind::Bounce,
    EffectKind::Rainbow,
    EffectKind::Breathe,
    EffectKind::Cycle,
    EffectKind::Fire,
    EffectKind::Meteor,
    EffectKind::RunningLights,
    EffectKind::Cylon,
    EffectKind::Timer,
    EffectKind::Twinkle,
    EffectKind::Sparkle,
    EffectKind::SnowSparkle,
    EffectKind::Wipe,
    EffectKind::Christmas,
    EffectKind::Collision,
];

fn pull(registry: &mut EffectRegistry, index: usize) -> Frame {
    registry.next_frame(index).unwrap()
}

#[test]
fn the_registry_has_fifteen_slots_and_falls_back_to_the_first() {
    assert_eq!(REGISTRY_SIZE, 15);
    assert_eq!(FALLBACK_SLOT, 0);
}

#[test]
fn every_slot_holds_its_kind() {
    let registry = EffectRegistry::new(55);
    for (slot, kind) in BY_SLOT.iter().enumerate() {
        assert_eq!(kind_in(slot), *kind);
        assert_eq!(registry.get(slot).kind(), *kind);
    }
}

#[test]
fn indices_inside_the_registry_select_their_own_slot() {
    for index in 0..15 {
        assert_eq!(slot_of(index), index);
    }
}

#[test]
fn indices_outside_the_registry_select_the_fallback() {
    let registry = EffectRegistry::new(55);
    for index in [15usize, 16, 100, usize::MAX] {
        assert_eq!(slot_of(index), 0);
        assert_eq!(kind_in(index), EffectKind::Bounce);
        assert_eq!(registry.get(index).kind(), EffectKind::Bounce);
        assert!(std::ptr::eq(registry.get(index), registry.get(0)));
    }
    assert!(!std::ptr::eq(registry.get(14), registry.get(0)));
}

#[test]
fn every_index_yields_frames_of_the_pixel_count() {
    let mut registry = EffectRegistry::new(55);
    assert_eq!(registry.pixel_count(), 55);
    for round in 0..20 {
        for index in 0..20 {
            assert_eq!(pull(&mut registry, index).len(), 55, "round {} index {}", round, index);
        }
    }
    assert_eq!(pull(&mut registry, usize::MAX).len(), 55);
}

#[test]
fn the_pixel_count_is_the_one_given() {
    for pixel_count in [7usize, 30, 300] {
        let mut registry = EffectRegistry::new(pixel_count);
        assert_eq!(registry.pixel_count(), pixel_count);
        for index in 0..15 {
            assert_eq!(pull(&mut registry, index).len(), pixel_count);
        }
    }
}

#[test]
fn consecutive_frames_of_one_effect_differ() {
    let mut registry = EffectRegistry::new(55);
    let first = pull(&mut registry, 1);
    let second = pull(&mut registry, 1);
    assert_ne!(first, second);
}

#[test]
fn an_effect_resumes_where_it_was_left() {
    let mut straight = EffectRegistry::new(55);
    let a1 = pull(&mut straight, 1);
    let a2 = pull(&mut straight, 1);
    let a3 = pull(&mut straight, 1);

    let mut interrupted = EffectRegistry::new(55);
    let b1 = pull(&mut interrupted, 1);
    for _ in 0..5 {
        pull(&mut interrupted, 3);
        pull(&mut interrupted, 12);
    }
    let b2 = pull(&mut interrupted, 1);
    pull(&mut interrupted, 0);
    let b3 = pull(&mut interrupted, 1);

    assert_eq!(a1, b1);
    assert_eq!(a2, b2);
    assert_eq!(a3, b3);
    assert_ne!(a1, a2);
    assert_ne!(a2, a3);
}

#[test]
fn an_unselected_effect_does_not_advance() {
    let mut registry = EffectRegistry::new(10);
    for _ in 0..7 {
        pull(&mut registry, 1);
        pull(&mut registry, 6);
    }
    let first_wipe = pull(&mut registry, 12);
    assert!(first_wipe.iter().all(|c| c.red == 0 && c.green == 0 && c.blue == 0));
    let second_wipe = pull(&mut registry, 12);
    assert_eq!(second_wipe[9].green, 255);
}
