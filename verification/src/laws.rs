//! Properties that span several operations, stated over the spec functions
//! that the operations' own contracts are written with, and proved once.

use vstd::prelude::*;
use crate::gb::Gameboy;
use crate::model::Model;

verus! {

/// For every supported model, a fresh instance carried through one
/// execution call still holds a pixel buffer of exactly the model's
/// documented screen dimensions: 256 by 224 pixels on a Super Game Boy
/// frame, 160 by 144 pixels on every other model.
///
/// `fresh` is what [`Gameboy::new`] returns for `model`; `during` and
/// `after` are its states inside and after an execution call, as
/// [`Gameboy::begin_run`] and [`Gameboy::end_run`] ensure them.
pub proof fn lemma_fresh_frame_dimensions(
    model: Model,
    fresh: Gameboy,
    during: Gameboy,
    after: Gameboy,
)
    requires
        fresh.model == model,
        !fresh.running,
        !fresh.rendering_disabled,
        fresh.pixels_reset(),
        during.running,
        during.same_but_running(fresh),
        !after.running,
        after.same_but_running(during),
    ensures
        after.pixel_buffer@.len() == model.spec_screen_width() * model.spec_screen_height(),
        model.spec_is_sgb() ==> after.pixel_buffer@.len() == 256 * 224,
        !model.spec_is_sgb() ==> after.pixel_buffer@.len() == 160 * 144,
{
}

/// While the core is executing, the reentrancy guard refuses every
/// idle-only operation (each of them returns the guard's verdict, and
/// leaves the state untouched on refusal); after the execution call ends,
/// the guard is idle again and the same operation succeeds.
///
/// `during` is the state inside an execution call; `after` is what
/// [`Gameboy::end_run`] ensures.
pub proof fn lemma_idle_only_rejected_then_accepted(during: Gameboy, after: Gameboy)
    requires
        during.running,
        !after.running,
        after.same_but_running(during),
    ensures
        during.spec_guard_verdict() is Err,
        after.spec_guard_verdict() is Ok,
{
}

/// Disabling rendering yields a zero-length pixel view; re-enabling yields
/// a view of the original dimensions with no stale pixel data: every entry
/// is reset to zero.
///
/// `disabled` and `reenabled` are the states that two calls of
/// [`Gameboy::set_rendering_disabled`] ensure, starting from a
/// well-formed state `start`.
pub proof fn lemma_rendering_toggle(start: Gameboy, disabled: Gameboy, reenabled: Gameboy)
    requires
        start.wf(),
        disabled.rendering_disabled,
        disabled.pixels_reset(),
        disabled.same_but_render_target(start),
        !reenabled.rendering_disabled,
        reenabled.pixels_reset(),
        reenabled.same_but_render_target(disabled),
    ensures
        disabled.pixel_buffer@.len() == 0,
        reenabled.pixel_buffer@.len() == start.model.spec_screen_width()
            * start.model.spec_screen_height(),
        forall|i: int|
            0 <= i < reenabled.pixel_buffer@.len() ==> reenabled.pixel_buffer@[i] == 0u32,
        reenabled.screen_width == start.screen_width,
        reenabled.screen_height == start.screen_height,
{
}

} // verus!
