//! The registry: one effect of every kind, each in its own slot.

use vstd::prelude::*;
use crate::color::Frame;
use crate::effect::{Effect, EffectKind, FrameError};
use crate::generators::{MAX_PIXELS, MIN_PIXELS};

verus! {

/// The number of slots in the registry.
pub const REGISTRY_SIZE: usize = 15;

/// The slot that stands in for every index outside the registry.
pub const FALLBACK_SLOT: usize = 0;

/// The kind of effect that lives in each slot.
pub open spec fn kind_at(slot: int) -> EffectKind {
    if slot == 1 {
        EffectKind::Rainbow
    } else if slot == 2 {
        EffectKind::Breathe
    } else if slot == 3 {
        EffectKind::Cycle
    } else if slot == 4 {
        EffectKind::Fire
    } else if slot == 5 {
        EffectKind::Meteor
    } else if slot == 6 {
        EffectKind::RunningLights
    } else if slot == 7 {
        EffectKind::Cylon
    } else if slot == 8 {
        EffectKind::Timer
    } else if slot == 9 {
        EffectKind::Twinkle
    } else if slot == 10 {
        EffectKind::Sparkle
    } else if slot == 11 {
        EffectKind::SnowSparkle
    } else if slot == 12 {
        EffectKind::Wipe
    } else if slot == 13 {
        EffectKind::Christmas
    } else if slot == 14 {
        EffectKind::Collision
    } else {
        EffectKind::Bounce
    }
}

/// The slot that a selection index leads to: the index itself inside the
/// registry, the fallback slot outside it.
pub open spec fn resolve(index: int) -> int {
    if 0 <= index < REGISTRY_SIZE {
        index
    } else {
        FALLBACK_SLOT as int
    }
}

/// The slot that a selection index leads to.
pub fn slot_of(index: usize) -> (slot: usize)
    ensures
        slot == resolve(index as int),
        slot < REGISTRY_SIZE,
    no_unwind
{
    if index < REGISTRY_SIZE {
        index
    } else {
        FALLBACK_SLOT
    }
}

/// The kind of effect that lives in `slot`.
pub fn kind_in(slot: usize) -> (kind: EffectKind)
    ensures
        kind == kind_at(slot as int),
    no_unwind
{
    match slot {
        1 => EffectKind::Rainbow,
        2 => EffectKind::Breathe,
        3 => EffectKind::Cycle,
        4 => EffectKind::Fire,
        5 => EffectKind::Meteor,
        6 => EffectKind::RunningLights,
        7 => EffectKind::Cylon,
        8 => EffectKind::Timer,
        9 => EffectKind::Twinkle,
        10 => EffectKind::Sparkle,
        11 => EffectKind::SnowSparkle,
        12 => EffectKind::Wipe,
        13 => EffectKind::Christmas,
        14 => EffectKind::Collision,
        _ => EffectKind::Bounce,
    }
}

/// A fixed mapping from slots to effects, filled once and never resized.
///
/// Every effect animates the same number of pixels. An effect keeps its
/// state while another one is selected: producing a frame from one slot
/// leaves all the others as they were.
pub struct EffectRegistry {
    effects: Vec<Effect>,
    pixel_count: usize,
}

impl View for EffectRegistry {
    type V = Seq<Effect>;

    /// The effects, by slot.
    closed spec fn view(&self) -> Seq<Effect> {
        self.effects@
    }
}

impl EffectRegistry {
    /// The number of pixels that every effect of the registry animates.
    pub closed spec fn spec_pixel_count(&self) -> usize {
        self.pixel_count
    }

    /// Every slot is filled, with the kind that belongs there, for the
    /// registry's pixel count.
    pub open spec fn well_formed(&self) -> bool {
        &&& self@.len() == REGISTRY_SIZE
        &&& MIN_PIXELS <= self.pixel_count() <= MAX_PIXELS
        &&& forall|slot: int|
            0 <= slot < REGISTRY_SIZE ==> (#[trigger] self@[slot]).kind() == kind_at(slot)
                && self@[slot].pixel_count() == self.pixel_count()
    }

    #[verifier::type_invariant]
    spec fn always_well_formed(&self) -> bool {
        self.well_formed()
    }

    /// A registry with a fresh effect in every slot, each made for
    /// `pixel_count` pixels.
    pub fn new(pixel_count: usize) -> (registry: EffectRegistry)
        requires
            MIN_PIXELS <= pixel_count <= MAX_PIXELS,
        ensures
            registry.well_formed(),
            registry.pixel_count() == pixel_count,
    {
        let mut effects: Vec<Effect> = Vec::new();
        let mut slot: usize = 0;
        while slot < REGISTRY_SIZE
            invariant
                slot <= REGISTRY_SIZE,
                MIN_PIXELS <= pixel_count <= MAX_PIXELS,
                effects@.len() == slot,
                forall|s: int|
                    0 <= s < slot ==> (#[trigger] effects@[s]).kind() == kind_at(s)
                        && effects@[s].pixel_count() == pixel_count,
            decreases REGISTRY_SIZE - slot,
        {
            effects.push(Effect::new(kind_in(slot), pixel_count));
            slot = slot + 1;
        }
        EffectRegistry { effects, pixel_count }
    }

    /// The number of pixels that every effect of the registry animates.
    #[verifier::when_used_as_spec(spec_pixel_count)]
    pub fn pixel_count(&self) -> (pixel_count: usize)
        ensures
            pixel_count == self.pixel_count(),
            MIN_PIXELS <= pixel_count <= MAX_PIXELS,
    {
        proof {
            use_type_invariant(self);
        }
        self.pixel_count
    }

    /// The effect that `index` selects. Total: an index outside the registry
    /// selects the effect in the fallback slot.
    pub fn get(&self, index: usize) -> (effect: &Effect)
        ensures
            self.well_formed(),
            *effect == self@[resolve(index as int)],
            effect.kind() == kind_at(resolve(index as int)),
            effect.pixel_count() == self.pixel_count(),
    {
        proof {
            use_type_invariant(self);
        }
        &self.effects[slot_of(index)]
    }

    /// Advances the effect that `index` selects and returns its next frame.
    ///
    /// The result is always `Ok`, with one colour for each pixel. See
    /// [`produced`] for all that holds afterwards.
    pub fn next_frame(&mut self, index: usize) -> (result: Result<Frame, FrameError>)
        ensures
            old(self).well_formed(),
            final(self).well_formed(),
            result matches Ok(frame) && frame@.len() == old(self).pixel_count(),
            produced(*old(self), index, *final(self), result),
    {
        proof {
            use_type_invariant(&*self);
        }
        advance_slot(&mut self.effects, slot_of(index))
    }
}

/// Advances the effect in `slot` and leaves every other one untouched.
fn advance_slot(effects: &mut Vec<Effect>, slot: usize) -> (result: Result<Frame, FrameError>)
    requires
        slot < old(effects)@.len(),
    ensures
        final(effects)@.len() == old(effects)@.len(),
        forall|other: int|
            0 <= other < old(effects)@.len() && other != slot ==> #[trigger] final(effects)@[other]
                == old(effects)@[other],
        final(effects)@[slot as int].kind() == old(effects)@[slot as int].kind(),
        final(effects)@[slot as int].pixel_count() == old(effects)@[slot as int].pixel_count(),
        result matches Ok(frame) && frame@.len() == old(effects)@[slot as int].pixel_count(),
    no_unwind
{
    effects[slot].next_frame()
}

/// What producing a frame through `index` does to a registry and what it
/// returns.
///
/// Only the selected slot changes, and the effect in it stays of its kind and
/// pixel count. The result is a frame, and it holds one colour for each pixel
/// of the registry.
pub open spec fn produced(
    before: EffectRegistry,
    index: usize,
    after: EffectRegistry,
    result: Result<Frame, FrameError>,
) -> bool {
    let slot = resolve(index as int);
    &&& after@.len() == before@.len()
    &&& after.pixel_count() == before.pixel_count()
    &&& forall|other: int|
        0 <= other < before@.len() && other != slot ==> #[trigger] after@[other] == before@[other]
    &&& after@[slot].kind() == before@[slot].kind()
    &&& after@[slot].pixel_count() == before@[slot].pixel_count()
    &&& result matches Ok(frame) && frame@.len() == before.pixel_count()
}

/// Fallback law: an index at or beyond the end of the registry selects what
/// index zero selects, so producing a frame through it is the same step.
pub proof fn lemma_out_of_range_selects_fallback(
    before: EffectRegistry,
    index: usize,
    after: EffectRegistry,
    result: Result<Frame, FrameError>,
)
    requires
        index >= REGISTRY_SIZE,
    ensures
        resolve(index as int) == resolve(0),
        before@[resolve(index as int)] == before@[resolve(0)],
        produced(before, index, after, result) == produced(before, 0, after, result),
{
}

/// Every index inside the registry selects its own slot, and no two of them
/// select the same one.
pub proof fn lemma_in_range_selects_own_slot(index: usize, other: usize)
    requires
        index < REGISTRY_SIZE,
        other < REGISTRY_SIZE,
    ensures
        resolve(index as int) == index,
        index != other ==> resolve(index as int) != resolve(other as int),
{
}

} // verus!
