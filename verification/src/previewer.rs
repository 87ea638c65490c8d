//! The previewer: the registry and the selection as one owned state, with the
//! steps that a timer, a draw callback and a button drive.

use vstd::prelude::*;
use crate::color::Frame;
use crate::effect::FrameError;
use crate::generators::{MAX_PIXELS, MIN_PIXELS};
use crate::registry::{produced, resolve, EffectRegistry, REGISTRY_SIZE};
use crate::render::{display_list, render, DrawOp, OPS_PER_PIXEL};
use crate::selection::{advanced, SelectionState};

verus! {

/// The strip length that the preview is made for by default.
pub const DEFAULT_PIXEL_COUNT: usize = 55;

/// The index that is selected when the preview starts.
pub const INITIAL_INDEX: usize = 14;

/// The bound at which the selection wraps. It is smaller than the registry,
/// so the slots from here on are reached only as a starting point.
pub const EFFECT_COUNT: usize = 13;

/// The time between two redraw requests, in milliseconds.
pub const REFRESH_PERIOD_MILLIS: u64 = 50;

/// What a periodic timer is told after each tick.
#[derive(Clone, Copy, Debug, PartialEq, Eq, Structural)]
pub enum TimerVerdict {
    /// Keep firing.
    Continue,
    /// Stop firing.
    Stop,
}

/// The verdict after a tick: the redraw timer runs for as long as the
/// application does, so it is always told to continue.
pub fn after_tick() -> (verdict: TimerVerdict)
    ensures
        verdict == TimerVerdict::Continue,
{
    TimerVerdict::Continue
}

/// The state of a preview: every effect, and which one is active.
pub struct Previewer {
    registry: EffectRegistry,
    selection: SelectionState,
}

impl Previewer {
    /// The effects.
    pub closed spec fn registry(&self) -> EffectRegistry {
        self.registry
    }

    /// The selection.
    pub closed spec fn selection(&self) -> SelectionState {
        self.selection
    }

    /// A preview of a strip of `pixel_count` pixels that starts with the
    /// effect at `initial_index` and cycles through `effect_count` effects.
    pub fn new(pixel_count: usize, initial_index: usize, effect_count: usize) -> (previewer:
        Previewer)
        requires
            MIN_PIXELS <= pixel_count <= MAX_PIXELS,
        ensures
            previewer.registry().well_formed(),
            previewer.registry().pixel_count() == pixel_count,
            previewer.selection().index() == initial_index,
            previewer.selection().effect_count() == effect_count,
    {
        Previewer {
            registry: EffectRegistry::new(pixel_count),
            selection: SelectionState::new(initial_index, effect_count),
        }
    }

    /// Like [`Previewer::new`], for any strip length: `None` when no preview
    /// can be made for it, which is the case exactly outside the range from
    /// [`MIN_PIXELS`] to [`MAX_PIXELS`].
    pub fn try_new(pixel_count: usize, initial_index: usize, effect_count: usize) -> (previewer:
        Option<Previewer>)
        ensures
            previewer is Some <==> MIN_PIXELS <= pixel_count <= MAX_PIXELS,
            previewer matches Some(p) ==> {
                &&& p.registry().well_formed()
                &&& p.registry().pixel_count() == pixel_count
                &&& p.selection().index() == initial_index
                &&& p.selection().effect_count() == effect_count
            },
    {
        if MIN_PIXELS <= pixel_count && pixel_count <= MAX_PIXELS {
            Some(Previewer::new(pixel_count, initial_index, effect_count))
        } else {
            None
        }
    }

    /// The preview with the default strip length, starting index and cycle.
    pub fn standard() -> (previewer: Previewer)
        ensures
            previewer.registry().well_formed(),
            previewer.registry().pixel_count() == DEFAULT_PIXEL_COUNT,
            previewer.selection().index() == INITIAL_INDEX,
            previewer.selection().effect_count() == EFFECT_COUNT,
    {
        Previewer::new(DEFAULT_PIXEL_COUNT, INITIAL_INDEX, EFFECT_COUNT)
    }

    /// The index of the active effect.
    pub fn selected(&self) -> (index: usize)
        ensures
            index == self.selection().index(),
    {
        self.selection.read()
    }

    /// The number of pixels in every frame.
    pub fn pixel_count(&self) -> (pixel_count: usize)
        ensures
            pixel_count == self.registry().pixel_count(),
            MIN_PIXELS <= pixel_count <= MAX_PIXELS,
    {
        self.registry.pixel_count()
    }

    /// Pulls the next frame from the active effect.
    ///
    /// The selection stays as it is, and the registry takes the step that
    /// [`produced`] describes for the selected index: only the active effect
    /// advances, and the result is a frame with one colour for each pixel.
    pub fn next_frame(&mut self) -> (result: Result<Frame, FrameError>)
        ensures
            final(self).selection() == old(self).selection(),
            final(self).registry().well_formed(),
            result matches Ok(frame) && frame@.len() == old(self).registry().pixel_count(),
            produced(
                old(self).registry(),
                old(self).selection().index(),
                final(self).registry(),
                result,
            ),
    {
        let index = self.selection.read();
        self.registry.next_frame(index)
    }

    /// Reacts to the trigger that asks for the next effect: the selection
    /// advances, and nothing else changes. The change shows with the next
    /// frame that is pulled.
    pub fn activate(&mut self)
        ensures
            final(self).registry() == old(self).registry(),
            final(self).selection().effect_count() == old(self).selection().effect_count(),
            final(self).selection().index() == advanced(
                old(self).selection().index() as int,
                old(self).selection().effect_count() as int,
            ),
    {
        self.selection.advance();
    }

    /// Serves one redraw: pulls the next frame from the active effect and
    /// projects it onto a canvas of the given size.
    ///
    /// The result is always `Ok`: the display list of the frame that the
    /// active effect produced, a frame of the registry's pixel count. Were a
    /// generator ever exhausted, nothing would be drawn and the error handed
    /// on.
    pub fn redraw(&mut self, canvas_width: i32, canvas_height: i32) -> (result: Result<
        Vec<DrawOp>,
        FrameError,
    >)
        ensures
            final(self).selection() == old(self).selection(),
            final(self).registry().well_formed(),
            result matches Ok(ops) && ops@.len() == OPS_PER_PIXEL * old(
                self,
            ).registry().pixel_count(),
            result matches Ok(ops) && exists|frame: Frame|
                {
                    &&& #[trigger] produced(
                        old(self).registry(),
                        old(self).selection().index(),
                        final(self).registry(),
                        Ok(frame),
                    )
                    &&& ops@ == display_list(frame@, canvas_width, canvas_height)
                },
    {
        match self.next_frame() {
            Ok(frame) => {
                let ops = render(&frame, canvas_width, canvas_height);
                Ok(ops)
            },
            Err(error) => Err(error),
        }
    }
}

/// Reach law: once the selection has advanced it stays below its bound, so
/// with a bound below the registry's size the slots from the bound on are
/// selected only as a starting point. With the standard bound these are the
/// last two slots.
pub proof fn lemma_cycling_stays_below_bound(index: usize, effect_count: usize)
    requires
        0 < effect_count <= REGISTRY_SIZE,
    ensures
        0 <= advanced(index as int, effect_count as int) < effect_count,
        resolve(advanced(index as int, effect_count as int)) < effect_count,
        resolve(advanced(index as int, EFFECT_COUNT as int)) < EFFECT_COUNT,
{
}

} // verus!
