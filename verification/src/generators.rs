//! The boundary to the animation generators of `smart_led_effects`.
//!
//! Every item in this file is trusted: Verus takes the contracts as given and
//! proves the rest of the crate from them. A generator is opaque here. What
//! the contracts say of it is limited to the number of pixels it was made
//! for, which is the length of every frame it yields, and to this, that
//! every step yields a frame: a generator is an unbounded sequence, each of
//! them ends every step by handing a frame out, and the outside crate
//! documents that its iterators run forever. The colours of a frame depend
//! on the generator's private state, on the clock and on random numbers, so
//! nothing is said of them.
//!
//! The bounds [`MIN_PIXELS`] and [`MAX_PIXELS`] delimit the strip lengths on
//! which none of the generators panics. Below seven pixels `Fire` draws a
//! random position from an empty range, below five `Cylon` runs off the end
//! of its buffer, and a few others need at least one or two pixels. Above
//! the upper bound the buffers' byte sizes and the 32-bit positions that some
//! generators compute are no longer known to fit.

use vstd::prelude::*;
use crate::color::Color;
use smart_led_effects::strip::EffectIterator;
use smart_led_effects::strip::{
    Bounce, Breathe, Christmas, Collision, Cycle, Cylon, Fire, Meteor, Rainbow, RunningLights,
    SnowSparkle, Timer, Twinkle, Wipe,
};
use smart_led_effects::Srgb;
use std::time::Duration;

verus! {

/// The shortest strip that every generator can animate.
pub const MIN_PIXELS: usize = 7;

/// The longest strip that every generator can animate.
pub const MAX_PIXELS: usize = 0x0100_0000;

/// The longest period a countdown may be given, in milliseconds: one day.
pub const MAX_TIMER_MILLIS: u64 = 86_400_000;

/// `Bounce` of `smart_led_effects`: balls that bounce up and down the strip.
#[verifier::external_type_specification]
#[verifier::external_body]
pub struct ExBounce(smart_led_effects::strip::Bounce);

/// The number of pixels that a `Bounce` was made for: its `count`, the length
/// of the buffer it fills for each frame.
pub uninterp spec fn bounce_pixels(generator: Bounce) -> nat;

/// Calls `Bounce::new`, every optional parameter left to the outside crate's
/// default.
///
/// Trusted: for a pixel count within the bounds the call does not panic, and
/// the generator it returns is made for `pixel_count` pixels.
#[verifier::external_body]
pub(crate) fn bounce_new(pixel_count: usize) -> (generator: Bounce)
    requires
        MIN_PIXELS <= pixel_count <= MAX_PIXELS,
    ensures
        bounce_pixels(generator) == pixel_count,
    no_unwind
{
    Bounce::new(pixel_count, None, None, None, None, None)
}

/// Calls `EffectIterator::next` on a `Bounce` and hands the frame on as
/// [`Color`]s.
///
/// Trusted: on a generator made for a pixel count within the bounds the call
/// does not panic and yields a frame; the generator stays one for the same
/// number of pixels; and the frame has exactly that many pixels.
#[verifier::external_body]
pub(crate) fn bounce_next(generator: &mut Bounce) -> (outcome: Option<Vec<Color>>)
    requires
        MIN_PIXELS <= bounce_pixels(*old(generator)) <= MAX_PIXELS,
    ensures
        bounce_pixels(*final(generator)) == bounce_pixels(*old(generator)),
        outcome matches Some(frame) && frame@.len() == bounce_pixels(*old(generator)),
    no_unwind
{
    generator.next().map(
        |pixels| pixels.into_iter().map(|p| Color::new(p.red, p.green, p.blue)).collect(),
    )
}

/// `Rainbow` of `smart_led_effects`: a rainbow that travels along the strip.
#[verifier::external_type_specification]
#[verifier::external_body]
pub struct ExRainbow(smart_led_effects::strip::Rainbow);

/// The number of pixels that a `Rainbow` was made for: the length of its buffer
/// of hues, one for each pixel.
pub uninterp spec fn rainbow_pixels(generator: Rainbow) -> nat;

/// Calls `Rainbow::new` with the outside crate's default number of steps.
///
/// Trusted: for a pixel count within the bounds the call does not panic, and
/// the generator it returns is made for `pixel_count` pixels.
#[verifier::external_body]
pub(crate) fn rainbow_new(pixel_count: usize) -> (generator: Rainbow)
    requires
        MIN_PIXELS <= pixel_count <= MAX_PIXELS,
    ensures
        rainbow_pixels(generator) == pixel_count,
    no_unwind
{
    Rainbow::new(pixel_count, None)
}

/// Calls `EffectIterator::next` on a `Rainbow` and hands the frame on as
/// [`Color`]s.
///
/// Trusted: on a generator made for a pixel count within the bounds the call
/// does not panic and yields a frame; the generator stays one for the same
/// number of pixels; and the frame has exactly that many pixels.
///
/// A `Rainbow` made for an empty strip still holds one hue, so its frames would
/// have one pixel; the bounds leave that out.
#[verifier::external_body]
pub(crate) fn rainbow_next(generator: &mut Rainbow) -> (outcome: Option<Vec<Color>>)
    requires
        MIN_PIXELS <= rainbow_pixels(*old(generator)) <= MAX_PIXELS,
    ensures
        rainbow_pixels(*final(generator)) == rainbow_pixels(*old(generator)),
        outcome matches Some(frame) && frame@.len() == rainbow_pixels(*old(generator)),
    no_unwind
{
    generator.next().map(
        |pixels| pixels.into_iter().map(|p| Color::new(p.red, p.green, p.blue)).collect(),
    )
}

/// `Breathe` of `smart_led_effects`: one colour that fades in and out.
#[verifier::external_type_specification]
#[verifier::external_body]
pub struct ExBreathe(smart_led_effects::strip::Breathe);

/// The number of pixels that a `Breathe` was made for: its `count`, the number
/// of times each frame repeats the one colour.
pub uninterp spec fn breathe_pixels(generator: Breathe) -> nat;

/// Calls `Breathe::new` with the outside crate's default colour and step.
///
/// Trusted: for a pixel count within the bounds the call does not panic, and
/// the generator it returns is made for `pixel_count` pixels.
#[verifier::external_body]
pub(crate) fn breathe_new(pixel_count: usize) -> (generator: Breathe)
    requires
        MIN_PIXELS <= pixel_count <= MAX_PIXELS,
    ensures
        breathe_pixels(generator) == pixel_count,
    no_unwind
{
    Breathe::new(pixel_count, None, None)
}

/// Calls `EffectIterator::next` on a `Breathe` and hands the frame on as
/// [`Color`]s.
///
/// Trusted: on a generator made for a pixel count within the bounds the call
/// does not panic and yields a frame; the generator stays one for the same
/// number of pixels; and the frame has exactly that many pixels.
#[verifier::external_body]
pub(crate) fn breathe_next(generator: &mut Breathe) -> (outcome: Option<Vec<Color>>)
    requires
        MIN_PIXELS <= breathe_pixels(*old(generator)) <= MAX_PIXELS,
    ensures
        breathe_pixels(*final(generator)) == breathe_pixels(*old(generator)),
        outcome matches Some(frame) && frame@.len() == breathe_pixels(*old(generator)),
    no_unwind
{
    generator.next().map(
        |pixels| pixels.into_iter().map(|p| Color::new(p.red, p.green, p.blue)).collect(),
    )
}

/// `Cycle` of `smart_led_effects`: the whole strip moving through the hues.
#[verifier::external_type_specification]
#[verifier::external_body]
pub struct ExCycle(smart_led_effects::strip::Cycle);

/// The number of pixels that a `Cycle` was made for: the length of its buffer
/// of hues, one for each pixel.
pub uninterp spec fn cycle_pixels(generator: Cycle) -> nat;

/// Calls `Cycle::new` with the outside crate's default number of steps.
///
/// Trusted: for a pixel count within the bounds the call does not panic, and
/// the generator it returns is made for `pixel_count` pixels.
#[verifier::external_body]
pub(crate) fn cycle_new(pixel_count: usize) -> (generator: Cycle)
    requires
        MIN_PIXELS <= pixel_count <= MAX_PIXELS,
    ensures
        cycle_pixels(generator) == pixel_count,
    no_unwind
{
    Cycle::new(pixel_count, None)
}

/// Calls `EffectIterator::next` on a `Cycle` and hands the frame on as
/// [`Color`]s.
///
/// Trusted: on a generator made for a pixel count within the bounds the call
/// does not panic and yields a frame; the generator stays one for the same
/// number of pixels; and the frame has exactly that many pixels.
///
/// A `Cycle` made for an empty strip yields no frame; the bounds leave that
/// out.
#[verifier::external_body]
pub(crate) fn cycle_next(generator: &mut Cycle) -> (outcome: Option<Vec<Color>>)
    requires
        MIN_PIXELS <= cycle_pixels(*old(generator)) <= MAX_PIXELS,
    ensures
        cycle_pixels(*final(generator)) == cycle_pixels(*old(generator)),
        outcome matches Some(frame) && frame@.len() == cycle_pixels(*old(generator)),
    no_unwind
{
    generator.next().map(
        |pixels| pixels.into_iter().map(|p| Color::new(p.red, p.green, p.blue)).collect(),
    )
}

/// `Fire` of `smart_led_effects`: a flickering flame.
#[verifier::external_type_specification]
#[verifier::external_body]
pub struct ExFire(smart_led_effects::strip::Fire);

/// The number of pixels that a `Fire` was made for: the length of its buffer of
/// heat, one cell for each pixel.
pub uninterp spec fn fire_pixels(generator: Fire) -> nat;

/// Calls `Fire::new` with the outside crate's default cooling and sparking.
///
/// Trusted: for a pixel count within the bounds the call does not panic, and
/// the generator it returns is made for `pixel_count` pixels.
#[verifier::external_body]
pub(crate) fn fire_new(pixel_count: usize) -> (generator: Fire)
    requires
        MIN_PIXELS <= pixel_count <= MAX_PIXELS,
    ensures
        fire_pixels(generator) == pixel_count,
    no_unwind
{
    Fire::new(pixel_count, None, None)
}

/// Calls `EffectIterator::next` on a `Fire` and hands the frame on as
/// [`Color`]s.
///
/// Trusted: on a generator made for a pixel count within the bounds the call
/// does not panic and yields a frame; the generator stays one for the same
/// number of pixels; and the frame has exactly that many pixels.
///
/// Below seven pixels the call can panic: a spark is placed at a random
/// position among the first seventh of the cells.
#[verifier::external_body]
pub(crate) fn fire_next(generator: &mut Fire) -> (outcome: Option<Vec<Color>>)
    requires
        MIN_PIXELS <= fire_pixels(*old(generator)) <= MAX_PIXELS,
    ensures
        fire_pixels(*final(generator)) == fire_pixels(*old(generator)),
        outcome matches Some(frame) && frame@.len() == fire_pixels(*old(generator)),
    no_unwind
{
    generator.next().map(
        |pixels| pixels.into_iter().map(|p| Color::new(p.red, p.green, p.blue)).collect(),
    )
}

/// `Meteor` of `smart_led_effects`: a meteor with a fading trail.
#[verifier::external_type_specification]
#[verifier::external_body]
pub struct ExMeteor(smart_led_effects::strip::Meteor);

/// The number of pixels that a `Meteor` was made for: its `count`, the length
/// of the buffer it keeps between frames.
pub uninterp spec fn meteor_pixels(generator: Meteor) -> nat;

/// Calls `Meteor::new` with the outside crate's default colour, size and fade.
///
/// Trusted: for a pixel count within the bounds the call does not panic, and
/// the generator it returns is made for `pixel_count` pixels.
#[verifier::external_body]
pub(crate) fn meteor_new(pixel_count: usize) -> (generator: Meteor)
    requires
        MIN_PIXELS <= pixel_count <= MAX_PIXELS,
    ensures
        meteor_pixels(generator) == pixel_count,
    no_unwind
{
    Meteor::new(pixel_count, None, None, None)
}

/// Calls `EffectIterator::next` on a `Meteor` and hands the frame on as
/// [`Color`]s.
///
/// Trusted: on a generator made for a pixel count within the bounds the call
/// does not panic and yields a frame; the generator stays one for the same
/// number of pixels; and the frame has exactly that many pixels.
#[verifier::external_body]
pub(crate) fn meteor_next(generator: &mut Meteor) -> (outcome: Option<Vec<Color>>)
    requires
        MIN_PIXELS <= meteor_pixels(*old(generator)) <= MAX_PIXELS,
    ensures
        meteor_pixels(*final(generator)) == meteor_pixels(*old(generator)),
        outcome matches Some(frame) && frame@.len() == meteor_pixels(*old(generator)),
    no_unwind
{
    generator.next().map(
        |pixels| pixels.into_iter().map(|p| Color::new(p.red, p.green, p.blue)).collect(),
    )
}

/// `RunningLights` of `smart_led_effects`: waves of brightness that run along the strip.
#[verifier::external_type_specification]
#[verifier::external_body]
pub struct ExRunningLights(smart_led_effects::strip::RunningLights);

/// The number of pixels that a `RunningLights` was made for: its `count`, the
/// length of the buffer it fills for each frame.
pub uninterp spec fn running_lights_pixels(generator: RunningLights) -> nat;

/// Calls `RunningLights::new` with the outside crate's default colour and the
/// given direction.
///
/// Trusted: for a pixel count within the bounds the call does not panic, and
/// the generator it returns is made for `pixel_count` pixels.
#[verifier::external_body]
pub(crate) fn running_lights_new(pixel_count: usize, reverse: bool) -> (generator: RunningLights)
    requires
        MIN_PIXELS <= pixel_count <= MAX_PIXELS,
    ensures
        running_lights_pixels(generator) == pixel_count,
    no_unwind
{
    RunningLights::new(pixel_count, None, reverse)
}

/// Calls `EffectIterator::next` on a `RunningLights` and hands the frame on as
/// [`Color`]s.
///
/// Trusted: on a generator made for a pixel count within the bounds the call
/// does not panic and yields a frame; the generator stays one for the same
/// number of pixels; and the frame has exactly that many pixels.
#[verifier::external_body]
pub(crate) fn running_lights_next(generator: &mut RunningLights) -> (outcome: Option<Vec<Color>>)
    requires
        MIN_PIXELS <= running_lights_pixels(*old(generator)) <= MAX_PIXELS,
    ensures
        running_lights_pixels(*final(generator)) == running_lights_pixels(*old(generator)),
        outcome matches Some(frame) && frame@.len() == running_lights_pixels(*old(generator)),
    no_unwind
{
    generator.next().map(
        |pixels| pixels.into_iter().map(|p| Color::new(p.red, p.green, p.blue)).collect(),
    )
}

/// `Cylon` of `smart_led_effects`: an eye that sweeps back and forth.
#[verifier::external_type_specification]
#[verifier::external_body]
pub struct ExCylon(smart_led_effects::strip::Cylon);

/// The number of pixels that a `Cylon` was made for: the length of its buffer
/// of brightness, one value for each pixel.
pub uninterp spec fn cylon_pixels(generator: Cylon) -> nat;

/// Calls `Cylon::new` with the given eye colour and the outside crate's default
/// size and fade.
///
/// Trusted: for a pixel count within the bounds the call does not panic, and
/// the generator it returns is made for `pixel_count` pixels.
#[verifier::external_body]
pub(crate) fn cylon_new(pixel_count: usize, eye: Color) -> (generator: Cylon)
    requires
        MIN_PIXELS <= pixel_count <= MAX_PIXELS,
    ensures
        cylon_pixels(generator) == pixel_count,
    no_unwind
{
    Cylon::new(pixel_count, Srgb::new(eye.red, eye.green, eye.blue), None, None)
}

/// Calls `EffectIterator::next` on a `Cylon` and hands the frame on as
/// [`Color`]s.
///
/// Trusted: on a generator made for a pixel count within the bounds the call
/// does not panic and yields a frame; the generator stays one for the same
/// number of pixels; and the frame has exactly that many pixels.
///
/// Below five pixels the call can panic: the eye, four pixels wide, never
/// reaches the end of the strip and its trail outgrows the buffer.
#[verifier::external_body]
pub(crate) fn cylon_next(generator: &mut Cylon) -> (outcome: Option<Vec<Color>>)
    requires
        MIN_PIXELS <= cylon_pixels(*old(generator)) <= MAX_PIXELS,
    ensures
        cylon_pixels(*final(generator)) == cylon_pixels(*old(generator)),
        outcome matches Some(frame) && frame@.len() == cylon_pixels(*old(generator)),
    no_unwind
{
    generator.next().map(
        |pixels| pixels.into_iter().map(|p| Color::new(p.red, p.green, p.blue)).collect(),
    )
}

/// `Timer` of `smart_led_effects`: a countdown bar.
#[verifier::external_type_specification]
#[verifier::external_body]
pub struct ExTimer(smart_led_effects::strip::Timer);

/// The number of pixels that a `Timer` was made for: its `count`, the length of
/// the buffer it fills for each frame.
pub uninterp spec fn timer_pixels(generator: Timer) -> nat;

/// Calls `Timer::new` with the given period and the outside crate's default
/// colours and gradient.
///
/// Trusted: for a pixel count within the bounds and a period of at most a day
/// the call does not panic, and the generator it returns is made for
/// `pixel_count` pixels.
#[verifier::external_body]
pub(crate) fn timer_new(pixel_count: usize, period_millis: u64, running: bool) -> (generator:
    Timer)
    requires
        MIN_PIXELS <= pixel_count <= MAX_PIXELS,
        period_millis <= MAX_TIMER_MILLIS,
    ensures
        timer_pixels(generator) == pixel_count,
    no_unwind
{
    Timer::new(pixel_count, Duration::from_millis(period_millis), None, None, None, running)
}

/// Calls `EffectIterator::next` on a `Timer` and hands the frame on as
/// [`Color`]s.
///
/// Trusted: on a generator made for a pixel count within the bounds the call
/// does not panic and yields a frame; the generator stays one for the same
/// number of pixels; and the frame has exactly that many pixels.
#[verifier::external_body]
pub(crate) fn timer_next(generator: &mut Timer) -> (outcome: Option<Vec<Color>>)
    requires
        MIN_PIXELS <= timer_pixels(*old(generator)) <= MAX_PIXELS,
    ensures
        timer_pixels(*final(generator)) == timer_pixels(*old(generator)),
        outcome matches Some(frame) && frame@.len() == timer_pixels(*old(generator)),
    no_unwind
{
    generator.next().map(
        |pixels| pixels.into_iter().map(|p| Color::new(p.red, p.green, p.blue)).collect(),
    )
}

/// `Twinkle` of `smart_led_effects`: random twinkles.
#[verifier::external_type_specification]
#[verifier::external_body]
pub struct ExTwinkle(smart_led_effects::strip::Twinkle);

/// The number of pixels that a `Twinkle` was made for: the length of its buffer
/// of colours, one for each pixel.
pub uninterp spec fn twinkle_pixels(generator: Twinkle) -> nat;

/// Calls `Twinkle::new`, every optional parameter left to the outside crate's
/// default.
///
/// Trusted: for a pixel count within the bounds the call does not panic, and
/// the generator it returns is made for `pixel_count` pixels.
#[verifier::external_body]
pub(crate) fn twinkle_new(pixel_count: usize) -> (generator: Twinkle)
    requires
        MIN_PIXELS <= pixel_count <= MAX_PIXELS,
    ensures
        twinkle_pixels(generator) == pixel_count,
    no_unwind
{
    Twinkle::new(pixel_count, None, None, None, None)
}

/// Calls `Twinkle::sparkle` with the outside crate's default colour.
///
/// Trusted: for a pixel count within the bounds the call does not panic, and
/// the generator it returns is made for `pixel_count` pixels.
#[verifier::external_body]
pub(crate) fn twinkle_sparkle(pixel_count: usize) -> (generator: Twinkle)
    requires
        MIN_PIXELS <= pixel_count <= MAX_PIXELS,
    ensures
        twinkle_pixels(generator) == pixel_count,
    no_unwind
{
    Twinkle::sparkle(pixel_count, None)
}

/// Calls `EffectIterator::next` on a `Twinkle` and hands the frame on as
/// [`Color`]s.
///
/// Trusted: on a generator made for a pixel count within the bounds the call
/// does not panic and yields a frame; the generator stays one for the same
/// number of pixels; and the frame has exactly that many pixels.
///
/// On an empty strip the call can panic: a twinkle is placed at a random
/// position.
#[verifier::external_body]
pub(crate) fn twinkle_next(generator: &mut Twinkle) -> (outcome: Option<Vec<Color>>)
    requires
        MIN_PIXELS <= twinkle_pixels(*old(generator)) <= MAX_PIXELS,
    ensures
        twinkle_pixels(*final(generator)) == twinkle_pixels(*old(generator)),
        outcome matches Some(frame) && frame@.len() == twinkle_pixels(*old(generator)),
    no_unwind
{
    generator.next().map(
        |pixels| pixels.into_iter().map(|p| Color::new(p.red, p.green, p.blue)).collect(),
    )
}

/// `SnowSparkle` of `smart_led_effects`: sparkles on a dim background.
#[verifier::external_type_specification]
#[verifier::external_body]
pub struct ExSnowSparkle(smart_led_effects::strip::SnowSparkle);

/// The number of pixels that a `SnowSparkle` was made for: the length of its
/// buffer of colours, one for each pixel.
pub uninterp spec fn snow_sparkle_pixels(generator: SnowSparkle) -> nat;

/// Calls `SnowSparkle::new`, every optional parameter left to the outside
/// crate's default.
///
/// Trusted: for a pixel count within the bounds the call does not panic, and
/// the generator it returns is made for `pixel_count` pixels.
#[verifier::external_body]
pub(crate) fn snow_sparkle_new(pixel_count: usize) -> (generator: SnowSparkle)
    requires
        MIN_PIXELS <= pixel_count <= MAX_PIXELS,
    ensures
        snow_sparkle_pixels(generator) == pixel_count,
    no_unwind
{
    SnowSparkle::new(pixel_count, None, None, None, None)
}

/// Calls `EffectIterator::next` on a `SnowSparkle` and hands the frame on as
/// [`Color`]s.
///
/// Trusted: on a generator made for a pixel count within the bounds the call
/// does not panic and yields a frame; the generator stays one for the same
/// number of pixels; and the frame has exactly that many pixels.
///
/// On an empty strip the call can panic: a sparkle is placed at a random
/// position.
#[verifier::external_body]
pub(crate) fn snow_sparkle_next(generator: &mut SnowSparkle) -> (outcome: Option<Vec<Color>>)
    requires
        MIN_PIXELS <= snow_sparkle_pixels(*old(generator)) <= MAX_PIXELS,
    ensures
        snow_sparkle_pixels(*final(generator)) == snow_sparkle_pixels(*old(generator)),
        outcome matches Some(frame) && frame@.len() == snow_sparkle_pixels(*old(generator)),
    no_unwind
{
    generator.next().map(
        |pixels| pixels.into_iter().map(|p| Color::new(p.red, p.green, p.blue)).collect(),
    )
}

/// `Wipe` of `smart_led_effects`: a block of one colour wiped across the strip.
#[verifier::external_type_specification]
#[verifier::external_body]
pub struct ExWipe(smart_led_effects::strip::Wipe);

/// The number of pixels that a `Wipe` was made for: its `count`, the length of
/// the window it cuts out of its buffer for each frame.
pub uninterp spec fn wipe_pixels(generator: Wipe) -> nat;

/// Calls `Wipe::colour_wipe` with the given colour and direction.
///
/// Trusted: for a pixel count within the bounds the call does not panic, and
/// the generator it returns is made for `pixel_count` pixels.
#[verifier::external_body]
pub(crate) fn wipe_colour(pixel_count: usize, colour: Color, reverse: bool) -> (generator: Wipe)
    requires
        MIN_PIXELS <= pixel_count <= MAX_PIXELS,
    ensures
        wipe_pixels(generator) == pixel_count,
    no_unwind
{
    Wipe::colour_wipe(pixel_count, Some(Srgb::new(colour.red, colour.green, colour.blue)), reverse)
}

/// Calls `EffectIterator::next` on a `Wipe` and hands the frame on as
/// [`Color`]s.
///
/// Trusted: on a generator made for a pixel count within the bounds the call
/// does not panic and yields a frame; the generator stays one for the same
/// number of pixels; and the frame has exactly that many pixels.
#[verifier::external_body]
pub(crate) fn wipe_next(generator: &mut Wipe) -> (outcome: Option<Vec<Color>>)
    requires
        MIN_PIXELS <= wipe_pixels(*old(generator)) <= MAX_PIXELS,
    ensures
        wipe_pixels(*final(generator)) == wipe_pixels(*old(generator)),
        outcome matches Some(frame) && frame@.len() == wipe_pixels(*old(generator)),
    no_unwind
{
    generator.next().map(
        |pixels| pixels.into_iter().map(|p| Color::new(p.red, p.green, p.blue)).collect(),
    )
}

/// `Christmas` of `smart_led_effects`: coloured sparkles on a green background.
#[verifier::external_type_specification]
#[verifier::external_body]
pub struct ExChristmas(smart_led_effects::strip::Christmas);

/// The number of pixels that a `Christmas` was made for: its `length`, the
/// length of the buffer it fills for each frame.
pub uninterp spec fn christmas_pixels(generator: Christmas) -> nat;

/// Calls `Christmas::new`, every optional parameter left to the outside crate's
/// default.
///
/// Trusted: for a pixel count within the bounds the call does not panic, and
/// the generator it returns is made for `pixel_count` pixels.
#[verifier::external_body]
pub(crate) fn christmas_new(pixel_count: usize) -> (generator: Christmas)
    requires
        MIN_PIXELS <= pixel_count <= MAX_PIXELS,
    ensures
        christmas_pixels(generator) == pixel_count,
    no_unwind
{
    Christmas::new(pixel_count, None, None, None, None)
}

/// Calls `EffectIterator::next` on a `Christmas` and hands the frame on as
/// [`Color`]s.
///
/// Trusted: on a generator made for a pixel count within the bounds the call
/// does not panic and yields a frame; the generator stays one for the same
/// number of pixels; and the frame has exactly that many pixels.
///
/// On an empty strip the call can panic: a sparkle is placed at a random
/// position.
#[verifier::external_body]
pub(crate) fn christmas_next(generator: &mut Christmas) -> (outcome: Option<Vec<Color>>)
    requires
        MIN_PIXELS <= christmas_pixels(*old(generator)) <= MAX_PIXELS,
    ensures
        christmas_pixels(*final(generator)) == christmas_pixels(*old(generator)),
        outcome matches Some(frame) && frame@.len() == christmas_pixels(*old(generator)),
    no_unwind
{
    generator.next().map(
        |pixels| pixels.into_iter().map(|p| Color::new(p.red, p.green, p.blue)).collect(),
    )
}

/// `Collision` of `smart_led_effects`: two particles that meet and shatter.
#[verifier::external_type_specification]
#[verifier::external_body]
pub struct ExCollision(smart_led_effects::strip::Collision);

/// The number of pixels that a `Collision` was made for: its `count`, the
/// length of the buffer it fills for each frame.
pub uninterp spec fn collision_pixels(generator: Collision) -> nat;

/// Calls `Collision::new` with the outside crate's default, which lets the
/// particles shatter.
///
/// Trusted: for a pixel count within the bounds the call does not panic, and
/// the generator it returns is made for `pixel_count` pixels.
#[verifier::external_body]
pub(crate) fn collision_new(pixel_count: usize) -> (generator: Collision)
    requires
        MIN_PIXELS <= pixel_count <= MAX_PIXELS,
    ensures
        collision_pixels(generator) == pixel_count,
    no_unwind
{
    Collision::new(pixel_count, None)
}

/// Calls `EffectIterator::next` on a `Collision` and hands the frame on as
/// [`Color`]s.
///
/// Trusted: on a generator made for a pixel count within the bounds the call
/// does not panic and yields a frame; the generator stays one for the same
/// number of pixels; and the frame has exactly that many pixels.
///
/// Below two pixels the particles can miss each other and run on without end;
/// beyond the upper bound their 32-bit positions no longer fit.
#[verifier::external_body]
pub(crate) fn collision_next(generator: &mut Collision) -> (outcome: Option<Vec<Color>>)
    requires
        MIN_PIXELS <= collision_pixels(*old(generator)) <= MAX_PIXELS,
    ensures
        collision_pixels(*final(generator)) == collision_pixels(*old(generator)),
        outcome matches Some(frame) && frame@.len() == collision_pixels(*old(generator)),
    no_unwind
{
    generator.next().map(
        |pixels| pixels.into_iter().map(|p| Color::new(p.red, p.green, p.blue)).collect(),
    )
}

} // verus!
