//! Effects: the closed set of animation generators behind one capability,
//! "produce the next frame".

use vstd::prelude::*;
use crate::color::{Color, Frame};
use crate::generators::{
    bounce_new, bounce_next, bounce_pixels, breathe_new, breathe_next, breathe_pixels,
    christmas_new, christmas_next, christmas_pixels, collision_new, collision_next,
    collision_pixels, cycle_new, cycle_next, cycle_pixels, cylon_new, cylon_next, cylon_pixels,
    fire_new, fire_next, fire_pixels, meteor_new, meteor_next, meteor_pixels, rainbow_new,
    rainbow_next, rainbow_pixels, running_lights_new, running_lights_next, running_lights_pixels,
    snow_sparkle_new, snow_sparkle_next, snow_sparkle_pixels, timer_new, timer_next, timer_pixels,
    twinkle_new, twinkle_next, twinkle_pixels, twinkle_sparkle, wipe_colour, wipe_next,
    wipe_pixels, MAX_PIXELS, MIN_PIXELS,
};
use smart_led_effects::strip::{
    Bounce, Breathe, Christmas, Collision, Cycle, Cylon, Fire, Meteor, Rainbow, RunningLights,
    SnowSparkle, Timer, Twinkle, Wipe,
};

verus! {

/// How long the countdown effect runs before it starts over, in milliseconds.
pub const TIMER_PERIOD_MILLIS: u64 = 5_000;

/// The supported effects.
#[derive(Clone, Copy, Debug, PartialEq, Eq, Structural)]
pub enum EffectKind {
    /// Balls that bounce up and down the strip.
    Bounce,
    /// A rainbow that travels along the strip.
    Rainbow,
    /// One colour that fades in and out.
    Breathe,
    /// The whole strip moving through the hues.
    Cycle,
    /// A flickering flame.
    Fire,
    /// A meteor with a fading trail.
    Meteor,
    /// Waves of brightness that run forward along the strip.
    RunningLights,
    /// A red eye that sweeps back and forth.
    Cylon,
    /// A countdown bar that starts at once and restarts when it runs out.
    Timer,
    /// Random twinkles in random colours.
    Twinkle,
    /// Short white sparkles.
    Sparkle,
    /// Sparkles on a dim white background.
    SnowSparkle,
    /// A green block wiped forward across the strip.
    Wipe,
    /// Coloured sparkles on a green background.
    Christmas,
    /// Two particles that meet and shatter.
    Collision,
}

/// Why no frame could be produced.
#[derive(Clone, Copy, Debug, PartialEq, Eq, Structural)]
pub enum FrameError {
    /// The generator of this kind yielded no frame. Generators are meant to
    /// run forever, so there is nothing to fall back on.
    Exhausted(EffectKind),
}

/// What a generator's answer means to the caller: the frame it yielded, or
/// the report that the generator of kind `kind` is exhausted.
pub open spec fn spec_frame_or_exhausted(outcome: Option<Frame>, kind: EffectKind) -> Result<
    Frame,
    FrameError,
> {
    match outcome {
        Some(frame) => Ok(frame),
        None => Err(FrameError::Exhausted(kind)),
    }
}

/// Turns a generator's answer into the caller's result: the frame it
/// yielded, or the report that the generator of kind `kind` is exhausted.
#[verifier::when_used_as_spec(spec_frame_or_exhausted)]
pub fn frame_or_exhausted(outcome: Option<Frame>, kind: EffectKind) -> (result: Result<
    Frame,
    FrameError,
>)
    ensures
        result == frame_or_exhausted(outcome, kind),
    no_unwind
{
    match outcome {
        Some(frame) => Ok(frame),
        None => Err(FrameError::Exhausted(kind)),
    }
}

/// The generator behind an effect, one variant for each kind.
enum Generator {
    Bounce(Bounce),
    Rainbow(Rainbow),
    Breathe(Breathe),
    Cycle(Cycle),
    Fire(Fire),
    Meteor(Meteor),
    RunningLights(RunningLights),
    Cylon(Cylon),
    Timer(Timer),
    Twinkle(Twinkle),
    Sparkle(Twinkle),
    SnowSparkle(SnowSparkle),
    Wipe(Wipe),
    Christmas(Christmas),
    Collision(Collision),
}

impl Generator {
    spec fn kind(&self) -> EffectKind {
        match *self {
            Generator::Bounce(_) => EffectKind::Bounce,
            Generator::Rainbow(_) => EffectKind::Rainbow,
            Generator::Breathe(_) => EffectKind::Breathe,
            Generator::Cycle(_) => EffectKind::Cycle,
            Generator::Fire(_) => EffectKind::Fire,
            Generator::Meteor(_) => EffectKind::Meteor,
            Generator::RunningLights(_) => EffectKind::RunningLights,
            Generator::Cylon(_) => EffectKind::Cylon,
            Generator::Timer(_) => EffectKind::Timer,
            Generator::Twinkle(_) => EffectKind::Twinkle,
            Generator::Sparkle(_) => EffectKind::Sparkle,
            Generator::SnowSparkle(_) => EffectKind::SnowSparkle,
            Generator::Wipe(_) => EffectKind::Wipe,
            Generator::Christmas(_) => EffectKind::Christmas,
            Generator::Collision(_) => EffectKind::Collision,
        }
    }

    spec fn pixels(&self) -> nat {
        match *self {
            Generator::Bounce(g) => bounce_pixels(g),
            Generator::Rainbow(g) => rainbow_pixels(g),
            Generator::Breathe(g) => breathe_pixels(g),
            Generator::Cycle(g) => cycle_pixels(g),
            Generator::Fire(g) => fire_pixels(g),
            Generator::Meteor(g) => meteor_pixels(g),
            Generator::RunningLights(g) => running_lights_pixels(g),
            Generator::Cylon(g) => cylon_pixels(g),
            Generator::Timer(g) => timer_pixels(g),
            Generator::Twinkle(g) => twinkle_pixels(g),
            Generator::Sparkle(g) => twinkle_pixels(g),
            Generator::SnowSparkle(g) => snow_sparkle_pixels(g),
            Generator::Wipe(g) => wipe_pixels(g),
            Generator::Christmas(g) => christmas_pixels(g),
            Generator::Collision(g) => collision_pixels(g),
        }
    }

    fn build(kind: EffectKind, pixel_count: usize) -> (generator: Generator)
        requires
            MIN_PIXELS <= pixel_count <= MAX_PIXELS,
        ensures
            generator.kind() == kind,
            generator.pixels() == pixel_count,
        no_unwind
    {
        match kind {
            EffectKind::Bounce => Generator::Bounce(bounce_new(pixel_count)),
            EffectKind::Rainbow => Generator::Rainbow(rainbow_new(pixel_count)),
            EffectKind::Breathe => Generator::Breathe(breathe_new(pixel_count)),
            EffectKind::Cycle => Generator::Cycle(cycle_new(pixel_count)),
            EffectKind::Fire => Generator::Fire(fire_new(pixel_count)),
            EffectKind::Meteor => Generator::Meteor(meteor_new(pixel_count)),
            EffectKind::RunningLights => Generator::RunningLights(
                running_lights_new(pixel_count, false),
            ),
            EffectKind::Cylon => Generator::Cylon(cylon_new(pixel_count, Color::new(255, 0, 0))),
            EffectKind::Timer => Generator::Timer(
                timer_new(pixel_count, TIMER_PERIOD_MILLIS, true),
            ),
            EffectKind::Twinkle => Generator::Twinkle(twinkle_new(pixel_count)),
            EffectKind::Sparkle => Generator::Sparkle(twinkle_sparkle(pixel_count)),
            EffectKind::SnowSparkle => Generator::SnowSparkle(snow_sparkle_new(pixel_count)),
            EffectKind::Wipe => Generator::Wipe(
                wipe_colour(pixel_count, Color::new(0, 255, 0), false),
            ),
            EffectKind::Christmas => Generator::Christmas(christmas_new(pixel_count)),
            EffectKind::Collision => Generator::Collision(collision_new(pixel_count)),
        }
    }

    fn tag(&self) -> (kind: EffectKind)
        ensures
            kind == self.kind(),
        no_unwind
    {
        match self {
            Generator::Bounce(_) => EffectKind::Bounce,
            Generator::Rainbow(_) => EffectKind::Rainbow,
            Generator::Breathe(_) => EffectKind::Breathe,
            Generator::Cycle(_) => EffectKind::Cycle,
            Generator::Fire(_) => EffectKind::Fire,
            Generator::Meteor(_) => EffectKind::Meteor,
            Generator::RunningLights(_) => EffectKind::RunningLights,
            Generator::Cylon(_) => EffectKind::Cylon,
            Generator::Timer(_) => EffectKind::Timer,
            Generator::Twinkle(_) => EffectKind::Twinkle,
            Generator::Sparkle(_) => EffectKind::Sparkle,
            Generator::SnowSparkle(_) => EffectKind::SnowSparkle,
            Generator::Wipe(_) => EffectKind::Wipe,
            Generator::Christmas(_) => EffectKind::Christmas,
            Generator::Collision(_) => EffectKind::Collision,
        }
    }

    fn advance(&mut self) -> (outcome: Option<Frame>)
        requires
            MIN_PIXELS <= old(self).pixels() <= MAX_PIXELS,
        ensures
            final(self).kind() == old(self).kind(),
            final(self).pixels() == old(self).pixels(),
            outcome matches Some(frame) && frame@.len() == old(self).pixels(),
        no_unwind
    {
        match self {
            Generator::Bounce(g) => bounce_next(g),
            Generator::Rainbow(g) => rainbow_next(g),
            Generator::Breathe(g) => breathe_next(g),
            Generator::Cycle(g) => cycle_next(g),
            Generator::Fire(g) => fire_next(g),
            Generator::Meteor(g) => meteor_next(g),
            Generator::RunningLights(g) => running_lights_next(g),
            Generator::Cylon(g) => cylon_next(g),
            Generator::Timer(g) => timer_next(g),
            Generator::Twinkle(g) => twinkle_next(g),
            Generator::Sparkle(g) => twinkle_next(g),
            Generator::SnowSparkle(g) => snow_sparkle_next(g),
            Generator::Wipe(g) => wipe_next(g),
            Generator::Christmas(g) => christmas_next(g),
            Generator::Collision(g) => collision_next(g),
        }
    }
}

/// One effect: a stateful generator of an unbounded sequence of frames for a
/// fixed number of pixels.
///
/// Its state only moves forward. To start an animation over, build a new
/// effect.
pub struct Effect {
    generator: Generator,
}

impl Effect {
    /// Which of the supported effects this is.
    pub closed spec fn spec_kind(&self) -> EffectKind {
        self.generator.kind()
    }

    /// The number of pixels the effect animates: the length of its frames.
    pub closed spec fn pixel_count(&self) -> nat {
        self.generator.pixels()
    }

    #[verifier::type_invariant]
    spec fn in_bounds(&self) -> bool {
        MIN_PIXELS <= self.generator.pixels() <= MAX_PIXELS
    }

    /// A fresh effect of the given kind for a strip of `pixel_count` pixels.
    pub fn new(kind: EffectKind, pixel_count: usize) -> (effect: Effect)
        requires
            MIN_PIXELS <= pixel_count <= MAX_PIXELS,
        ensures
            effect.kind() == kind,
            effect.pixel_count() == pixel_count,
        no_unwind
    {
        Effect { generator: Generator::build(kind, pixel_count) }
    }

    /// Which of the supported effects this is.
    #[verifier::when_used_as_spec(spec_kind)]
    pub fn kind(&self) -> (kind: EffectKind)
        ensures
            kind == self.kind(),
        no_unwind
    {
        self.generator.tag()
    }

    /// Advances the effect by one step and returns the frame it produced.
    ///
    /// The effect stays of its kind and keeps its pixel count. The frame has
    /// one colour for each pixel. The generators behind the effects yield a
    /// frame at every step, so the result is always `Ok`; the error is what
    /// a generator's silence would be turned into, see
    /// [`frame_or_exhausted`].
    pub fn next_frame(&mut self) -> (result: Result<Frame, FrameError>)
        ensures
            final(self).kind() == old(self).kind(),
            final(self).pixel_count() == old(self).pixel_count(),
            result matches Ok(frame) && frame@.len() == old(self).pixel_count(),
        no_unwind
    {
        proof {
            use_type_invariant(&*self);
        }
        let kind = self.generator.tag();
        let outcome = self.generator.advance();
        frame_or_exhausted(outcome, kind)
    }
}

} // verus!
