//! The wrapper-side state of one emulator instance: the idle/running
//! reentrancy guard, the pixel buffer handed to the core as its render
//! target, the event queue that callback dispatch fills, and the recording
//! policy.
//!
//! The opaque core itself is driven by the application around this state:
//! before an execution call the guard is set with [`Gameboy::begin_run`],
//! the core's callbacks are forwarded to the `on_` dispatch methods here,
//! and [`Gameboy::end_run`] restores the guard unconditionally.  Operations
//! that the core cannot survive mid-execution refuse with [`BusyError`]
//! while the guard shows running.

use vstd::prelude::*;
use crate::event::Event;
use crate::model::Model;
use crate::printer::{assemble_page, spec_is_page, PAGE_WIDTH};
use crate::rgb_encoder::{
    encode_a8b8g8a8, encode_a8r8g8b8, encode_b8g8a8a8, encode_r8g8b8a8, spec_encode_a8b8g8a8,
    spec_encode_a8r8g8b8, spec_encode_b8g8a8a8, spec_encode_r8g8b8a8,
};
use crate::text::{c_str_prefix, lossy_decode, lossy_decode_of, nul_prefix};
use crate::types::{EnabledEvents, PrinterPage, RgbEncoding, VBlankType};

verus! {

/// An idle-only operation was attempted while the core was executing.
#[derive(Copy, Clone, PartialEq, Eq, Structural, Debug)]
pub struct BusyError;

/// Describes an error from loading or probing a save state.
#[derive(Copy, Clone, PartialEq, Eq, Structural, Debug)]
pub enum ReadSaveStateError {
    /// Unknown reason.
    Other,
}

/// The packing a pixel color takes, as a pure function of the configured
/// encoding.
pub open spec fn spec_encode_rgb(encoding: RgbEncoding, r: u8, g: u8, b: u8) -> u32 {
    match encoding {
        RgbEncoding::B8G8R8X8 => spec_encode_b8g8a8a8(r, g, b),
        RgbEncoding::R8G8B8X8 => spec_encode_r8g8b8a8(r, g, b),
        RgbEncoding::X8R8G8B8 => spec_encode_a8r8g8b8(r, g, b),
        RgbEncoding::X8B8G8R8 => spec_encode_a8b8g8a8(r, g, b),
    }
}

/// Interpret the outcome of the core's save-state model probe: `status` is
/// the code the probe returned, `raw_model` the tag it wrote.  An
/// unrecognized model tag is an error, never a panic.
pub fn model_for_save_state(status: i32, raw_model: u32) -> (r: Result<Model, ReadSaveStateError>)
    ensures
        r == (if status == 0 {
            match Model::spec_of_id(raw_model) {
                Some(m) => Result::<Model, ReadSaveStateError>::Ok(m),
                None => Result::<Model, ReadSaveStateError>::Err(ReadSaveStateError::Other),
            }
        } else {
            Result::<Model, ReadSaveStateError>::Err(ReadSaveStateError::Other)
        }),
{
    if status != 0 {
        return Err(ReadSaveStateError::Other);
    }
    match Model::try_from_id(raw_model) {
        Ok(m) => Ok(m),
        Err(_) => Err(ReadSaveStateError::Other),
    }
}

/// The wrapper-side state of one emulator instance.
///
/// The fields are public so that contracts and tests can speak about them
/// directly; well-behaved states are characterized by [`Gameboy::wf`],
/// which the constructor establishes and every operation preserves.
pub struct Gameboy {
    /// The model currently emulated.
    pub model: Model,
    /// The reentrancy guard: true exactly while an execution call is in
    /// flight, during which only callback dispatch may touch the state.
    pub running: bool,
    /// Whether rendering is disabled; while it is, no render target is
    /// registered with the core and the pixel buffer is empty.
    pub rendering_disabled: bool,
    /// The pixel packing the core is told to render with.
    pub rgb_encoding: RgbEncoding,
    /// Which callback occurrences are recorded into `events`.
    pub enabled_events: EnabledEvents,
    /// Recorded callback occurrences, oldest first.
    pub events: Vec<Event>,
    /// The render target handed to the core, sized `width * height`, or
    /// empty while rendering is disabled.
    pub pixel_buffer: Vec<u32>,
    /// Width in pixels of the current render target.
    pub screen_width: u16,
    /// Height in pixels of the current render target.
    pub screen_height: u16,
    /// Title from the cartridge header of the loaded ROM.
    pub rom_title: String,
}

impl Gameboy {
    /// The screen dimensions match the model and the pixel buffer matches
    /// the rendering switch.
    pub open spec fn wf(self) -> bool {
        &&& self.screen_width == self.model.spec_screen_width()
        &&& self.screen_height == self.model.spec_screen_height()
        &&& self.pixel_buffer@.len() == if self.rendering_disabled {
            0int
        } else {
            self.model.spec_screen_width() * self.model.spec_screen_height()
        }
    }

    /// The pixel buffer was just reset: dimensions read from the model, and
    /// the buffer either empty (rendering disabled) or sized to the screen
    /// and all zero.
    pub open spec fn pixels_reset(self) -> bool {
        &&& self.screen_width == self.model.spec_screen_width()
        &&& self.screen_height == self.model.spec_screen_height()
        &&& if self.rendering_disabled {
            self.pixel_buffer@.len() == 0
        } else {
            self.pixel_buffer@.len() == self.model.spec_screen_width()
                * self.model.spec_screen_height() && forall|i: int|
                0 <= i < self.pixel_buffer@.len() ==> self.pixel_buffer@[i] == 0u32
        }
    }

    /// `self` and `other` agree on everything but the event queue.
    pub open spec fn same_but_events(self, other: Gameboy) -> bool {
        &&& self.model == other.model
        &&& self.running == other.running
        &&& self.rendering_disabled == other.rendering_disabled
        &&& self.rgb_encoding == other.rgb_encoding
        &&& self.enabled_events == other.enabled_events
        &&& self.pixel_buffer@ == other.pixel_buffer@
        &&& self.screen_width == other.screen_width
        &&& self.screen_height == other.screen_height
        &&& self.rom_title@ == other.rom_title@
    }

    /// `self` and `other` agree on everything but the reentrancy guard.
    pub open spec fn same_but_running(self, other: Gameboy) -> bool {
        &&& self.model == other.model
        &&& self.rendering_disabled == other.rendering_disabled
        &&& self.rgb_encoding == other.rgb_encoding
        &&& self.enabled_events == other.enabled_events
        &&& self.events@ == other.events@
        &&& self.pixel_buffer@ == other.pixel_buffer@
        &&& self.screen_width == other.screen_width
        &&& self.screen_height == other.screen_height
        &&& self.rom_title@ == other.rom_title@
    }

    /// `self` and `other` agree on everything but the recording policy.
    pub open spec fn same_but_enabled(self, other: Gameboy) -> bool {
        &&& self.model == other.model
        &&& self.running == other.running
        &&& self.rendering_disabled == other.rendering_disabled
        &&& self.rgb_encoding == other.rgb_encoding
        &&& self.events@ == other.events@
        &&& self.pixel_buffer@ == other.pixel_buffer@
        &&& self.screen_width == other.screen_width
        &&& self.screen_height == other.screen_height
        &&& self.rom_title@ == other.rom_title@
    }

    /// `self` and `other` agree on everything but the rendering switch and
    /// the pixel buffer.
    pub open spec fn same_but_render_target(self, other: Gameboy) -> bool {
        &&& self.model == other.model
        &&& self.running == other.running
        &&& self.rgb_encoding == other.rgb_encoding
        &&& self.enabled_events == other.enabled_events
        &&& self.events@ == other.events@
        &&& self.screen_width == other.screen_width
        &&& self.screen_height == other.screen_height
        &&& self.rom_title@ == other.rom_title@
    }

    /// `self` and `other` agree on everything but the model, the screen
    /// dimensions and the pixel buffer.
    pub open spec fn same_but_display(self, other: Gameboy) -> bool {
        &&& self.running == other.running
        &&& self.rendering_disabled == other.rendering_disabled
        &&& self.rgb_encoding == other.rgb_encoding
        &&& self.enabled_events == other.enabled_events
        &&& self.events@ == other.events@
        &&& self.rom_title@ == other.rom_title@
    }

    /// `self` and `other` agree on everything but the ROM title.
    pub open spec fn same_but_title(self, other: Gameboy) -> bool {
        &&& self.model == other.model
        &&& self.running == other.running
        &&& self.rendering_disabled == other.rendering_disabled
        &&& self.rgb_encoding == other.rgb_encoding
        &&& self.enabled_events == other.enabled_events
        &&& self.events@ == other.events@
        &&& self.pixel_buffer@ == other.pixel_buffer@
        &&& self.screen_width == other.screen_width
        &&& self.screen_height == other.screen_height
    }

    /// Fresh wrapper state for an instance of `model`: idle, rendering
    /// enabled with an all-zero pixel buffer of the model's screen size, no
    /// events recorded yet.
    pub fn new(model: Model, rgb_encoding: RgbEncoding, enabled_events: EnabledEvents) -> (gb:
        Gameboy)
        ensures
            gb.model == model,
            !gb.running,
            !gb.rendering_disabled,
            gb.rgb_encoding == rgb_encoding,
            gb.enabled_events == enabled_events,
            gb.events@.len() == 0,
            gb.rom_title@.len() == 0,
            gb.pixels_reset(),
            gb.wf(),
    {
        let mut gb = Gameboy {
            model,
            running: false,
            rendering_disabled: false,
            rgb_encoding,
            enabled_events,
            events: Vec::new(),
            pixel_buffer: Vec::new(),
            screen_width: 0,
            screen_height: 0,
            rom_title: String::new(),
        };
        gb.reset_pixel_buffer();
        gb
    }

    /// Re-read the screen dimensions from the model and re-create the
    /// render target: empty while rendering is disabled, otherwise an
    /// all-zero buffer of the screen size.
    fn reset_pixel_buffer(&mut self)
        ensures
            final(self).same_but_display(*old(self)),
            final(self).model == old(self).model,
            final(self).pixels_reset(),
    {
        self.screen_width = self.model.screen_width();
        self.screen_height = self.model.screen_height();
        proof {
            assert(self.screen_width <= 256 && self.screen_height <= 224);
            assert(self.screen_width as int * self.screen_height as int <= 57344)
                by (nonlinear_arith)
                requires
                    self.screen_width <= 256,
                    self.screen_height <= 224,
            ;
        }
        if self.rendering_disabled {
            self.pixel_buffer = Vec::new();
        } else {
            let n: usize = (self.screen_width as usize) * (self.screen_height as usize);
            self.pixel_buffer = zero_buffer(n);
        }
    }

    /// Whether the core is currently executing.  While it is, only callback
    /// dispatch may touch this instance.
    pub fn is_running(&self) -> (r: bool)
        ensures
            r == self.running,
    {
        self.running
    }

    /// The verdict of the reentrancy guard: refusal exactly while the core
    /// is executing.
    pub open spec fn spec_guard_verdict(self) -> Result<(), BusyError> {
        if self.running {
            Err(BusyError)
        } else {
            Ok(())
        }
    }

    /// Refuse with [`BusyError`] exactly while the core is executing.  The
    /// core itself performs no such check, so every operation it cannot
    /// survive mid-execution goes through this guard.
    pub fn assert_not_running(&self) -> (r: Result<(), BusyError>)
        ensures
            r == self.spec_guard_verdict(),
            r is Ok <==> !self.running,
    {
        if self.running {
            Err(BusyError)
        } else {
            Ok(())
        }
    }

    /// Flip the reentrancy guard to running before an execution call.
    /// Refused while already running: the core's execution calls are not
    /// reentrant.
    pub fn begin_run(&mut self) -> (r: Result<(), BusyError>)
        ensures
            old(self).running ==> r is Err && *final(self) == *old(self),
            !old(self).running ==> r is Ok && final(self).running && final(self).same_but_running(
                *old(self),
            ),
    {
        if self.running {
            Err(BusyError)
        } else {
            self.running = true;
            Ok(())
        }
    }

    /// Restore the reentrancy guard to idle after an execution call
    /// returns.  Unconditional: the guard is restored on every return path.
    pub fn end_run(&mut self)
        ensures
            !final(self).running,
            final(self).same_but_running(*old(self)),
    {
        self.running = false;
    }

    /// Drain all events recorded thus far, oldest first.
    pub fn iter_events(&mut self) -> (drained: Vec<Event>)
        ensures
            drained@ == old(self).events@,
            final(self).events@.len() == 0,
            final(self).same_but_events(*old(self)),
    {
        let mut drained: Vec<Event> = Vec::new();
        core::mem::swap(&mut drained, &mut self.events);
        drained
    }

    /// Get all enabled events.
    pub fn get_enabled_events(&self) -> (r: EnabledEvents)
        ensures
            r == self.enabled_events,
    {
        self.enabled_events
    }

    /// Set all enabled events.  Swapping the recording policy is an
    /// idle-only operation.
    pub fn set_enabled_events(&mut self, enabled_events: EnabledEvents) -> (r: Result<
        (),
        BusyError,
    >)
        ensures
            old(self).running ==> r is Err && *final(self) == *old(self),
            !old(self).running ==> r is Ok && final(self).enabled_events == enabled_events
                && final(self).same_but_enabled(*old(self)),
    {
        if self.running {
            Err(BusyError)
        } else {
            self.enabled_events = enabled_events;
            Ok(())
        }
    }

    /// Install (or clear) the recording policy: `None` records nothing.
    /// Swapping the policy is an idle-only operation.
    pub fn set_callbacks(&mut self, callbacks: Option<EnabledEvents>) -> (r: Result<
        (),
        BusyError,
    >)
        ensures
            old(self).running ==> r is Err && *final(self) == *old(self),
            !old(self).running ==> r is Ok && final(self).enabled_events == (match callbacks {
                Some(e) => e,
                None => EnabledEvents::spec_none(),
            }) && final(self).same_but_enabled(*old(self)),
    {
        match callbacks {
            Some(e) => self.set_enabled_events(e),
            None => self.set_enabled_events(EnabledEvents::default()),
        }
    }

    /// Get the currently loaded model.
    pub fn get_model(&self) -> (r: Model)
        ensures
            r == self.model,
    {
        self.model
    }

    /// Get the width of the screen in pixels.
    pub fn get_screen_width(&self) -> (r: usize)
        ensures
            r == self.screen_width,
    {
        self.screen_width as usize
    }

    /// Get the height of the screen in pixels.
    pub fn get_screen_height(&self) -> (r: usize)
        ensures
            r == self.screen_height,
    {
        self.screen_height as usize
    }

    /// Get the current pixel buffer.  A zero-length view means rendering is
    /// disabled.
    pub fn get_pixel_buffer(&self) -> (r: &[u32])
        ensures
            r@ == self.pixel_buffer@,
    {
        self.pixel_buffer.as_slice()
    }

    /// Get the ROM title from the cartridge header.
    pub fn get_rom_title(&self) -> (r: &str)
        ensures
            r@ == self.rom_title@,
    {
        self.rom_title.as_str()
    }

    /// Set whether rendering is disabled.  Disabling shrinks the pixel
    /// buffer to zero length (no stale pixels stay reachable); enabling
    /// re-creates an all-zero buffer of the screen size.
    pub fn set_rendering_disabled(&mut self, disabled: bool)
        requires
            old(self).wf(),
        ensures
            final(self).rendering_disabled == disabled,
            final(self).pixels_reset(),
            final(self).same_but_render_target(*old(self)),
    {
        self.rendering_disabled = disabled;
        self.reset_pixel_buffer();
    }

    /// Set the model to `model` and reset the emulator state: the screen
    /// dimensions follow the new model and the pixel buffer is re-created,
    /// so any previously obtained view of it is stale.  Idle-only.
    pub fn switch_model_and_reset(&mut self, model: Model) -> (r: Result<(), BusyError>)
        ensures
            old(self).running ==> r is Err && *final(self) == *old(self),
            !old(self).running ==> r is Ok && final(self).model == model && final(self).pixels_reset() && final(self).same_but_display(*old(self)),
    {
        if self.running {
            Err(BusyError)
        } else {
            self.model = model;
            self.reset_pixel_buffer();
            Ok(())
        }
    }

    /// Interpret the outcome of a save-state load: `status` is the code the
    /// core returned, `model_after` the model the core reports after it.
    /// On success the save state determines the model, so the screen
    /// dimensions and pixel buffer are re-created; on failure the state is
    /// left exactly as it was.  Idle-only: the load itself must not have
    /// been issued while running.
    pub fn load_state_apply(&mut self, status: i32, model_after: Model) -> (r: Result<
        (),
        ReadSaveStateError,
    >)
        requires
            !old(self).running,
        ensures
            status != 0 ==> r is Err && *final(self) == *old(self),
            status == 0 ==> r is Ok && final(self).model == model_after && final(self).pixels_reset() && final(self).same_but_display(*old(self)),
    {
        if status != 0 {
            Err(ReadSaveStateError::Other)
        } else {
            self.model = model_after;
            self.reset_pixel_buffer();
            Ok(())
        }
    }

    /// Take over the ROM title the core read from the cartridge header: the
    /// bytes before the first NUL, decoded as text.
    pub fn fixup_rom_title(&mut self, raw_title: &[u8])
        ensures
            final(self).rom_title@ == lossy_decode_of(nul_prefix(raw_title@)),
            final(self).same_but_title(*old(self)),
    {
        let prefix = c_str_prefix(raw_title);
        self.rom_title = lossy_decode(prefix.as_slice());
    }

    /// Pack an RGB triple the way the core was configured to render.
    pub fn encode_rgb(&self, r: u8, g: u8, b: u8) -> (px: u32)
        ensures
            px == spec_encode_rgb(self.rgb_encoding, r, g, b),
    {
        match self.rgb_encoding {
            RgbEncoding::B8G8R8X8 => encode_b8g8a8a8(r, g, b),
            RgbEncoding::R8G8B8X8 => encode_r8g8b8a8(r, g, b),
            RgbEncoding::X8R8G8B8 => encode_a8r8g8b8(r, g, b),
            RgbEncoding::X8B8G8R8 => encode_a8b8g8a8(r, g, b),
        }
    }

    /// Dispatch of the sample callback: record the pair if sample recording
    /// is enabled.
    pub fn on_sample(&mut self, left: i16, right: i16)
        ensures
            final(self).same_but_events(*old(self)),
            old(self).enabled_events.sample ==> final(self).events@ == old(self).events@.push(
                Event::Sample { left, right },
            ),
            !old(self).enabled_events.sample ==> final(self).events@ == old(self).events@,
    {
        if self.enabled_events.sample {
            self.events.push(Event::Sample { left, right });
        }
    }

    /// Dispatch of the rumble callback: record the raw amplitude bits if
    /// rumble recording is enabled.
    pub fn on_rumble(&mut self, amplitude_bits: u64)
        ensures
            final(self).same_but_events(*old(self)),
            old(self).enabled_events.rumble ==> final(self).events@ == old(self).events@.push(
                Event::Rumble { amplitude_bits },
            ),
            !old(self).enabled_events.rumble ==> final(self).events@ == old(self).events@,
    {
        if self.enabled_events.rumble {
            self.events.push(Event::Rumble { amplitude_bits });
        }
    }

    /// Dispatch of the vblank callback: record the frame kind if vblank
    /// recording is enabled.  Vblank events are recorded even while
    /// rendering is disabled.
    pub fn on_vblank(&mut self, vblank_type: VBlankType)
        ensures
            final(self).same_but_events(*old(self)),
            old(self).enabled_events.vblank ==> final(self).events@ == old(self).events@.push(
                Event::VBlank { vblank_type },
            ),
            !old(self).enabled_events.vblank ==> final(self).events@ == old(self).events@,
    {
        if self.enabled_events.vblank {
            self.events.push(Event::VBlank { vblank_type });
        }
    }

    /// Dispatch of the printer callback: if printer recording is enabled,
    /// assemble the full page (margins blank-filled, content block copied
    /// in at the top-margin offset) and record it.
    pub fn on_printer_page(
        &mut self,
        image: &[u32],
        height: u8,
        top_margin: u8,
        bottom_margin: u8,
        exposure: u8,
    )
        requires
            image@.len() == height as int * PAGE_WIDTH as int,
        ensures
            final(self).same_but_events(*old(self)),
            !old(self).enabled_events.printer ==> final(self).events@ == old(self).events@,
            old(self).enabled_events.printer ==> {
                &&& final(self).events@.len() == old(self).events@.len() + 1
                &&& final(self).events@.take(old(self).events@.len() as int) == old(self).events@
                &&& match final(self).events@.last() {
                    Event::PrintedPage { page } => spec_is_page(
                        page,
                        image@,
                        height,
                        top_margin,
                        bottom_margin,
                        exposure,
                    ),
                    _ => false,
                }
            },
    {
        if !self.enabled_events.printer {
            return ;
        }
        let data = assemble_page(image, height, top_margin, bottom_margin);
        let page = PrinterPage {
            data,
            width: PAGE_WIDTH,
            height: height as usize,
            top_margin: top_margin as usize,
            bottom_margin: bottom_margin as usize,
            exposure,
        };
        self.events.push(Event::PrintedPage { page });
        proof {
            assert(self.events@.take(old(self).events@.len() as int) =~= old(self).events@);
        }
    }

    /// Dispatch of the memory-read callback: the byte handed to the CPU is
    /// the interceptor's replacement if one was produced, otherwise the
    /// original byte, and the read is recorded if read recording is
    /// enabled.
    pub fn on_memory_read(&mut self, address: u16, original_data: u8, replacement: Option<u8>) -> (r:
        u8)
        ensures
            r == (match replacement {
                Some(v) => v,
                None => original_data,
            }),
            final(self).same_but_events(*old(self)),
            old(self).enabled_events.memory_read ==> final(self).events@ == old(self).events@.push(
                Event::MemoryRead { address, original_data, final_data: r },
            ),
            !old(self).enabled_events.memory_read ==> final(self).events@ == old(self).events@,
    {
        let final_data = match replacement {
            Some(v) => v,
            None => original_data,
        };
        if self.enabled_events.memory_read {
            self.events.push(Event::MemoryRead { address, original_data, final_data });
        }
        final_data
    }

    /// Dispatch of the memory-write callback: the permission verdict is
    /// forwarded to the core verbatim, never inverted; absent a verdict the
    /// write is permitted.  The write is recorded if write recording is
    /// enabled, with `prevented_by_callback` set exactly when the verdict
    /// refused it.
    pub fn on_memory_write(&mut self, address: u16, data: u8, permitted: Option<bool>) -> (allow:
        bool)
        ensures
            allow == (match permitted {
                Some(v) => v,
                None => true,
            }),
            final(self).same_but_events(*old(self)),
            old(self).enabled_events.memory_write ==> final(self).events@ == old(self).events@.push(
                Event::MemoryWrite { address, data, prevented_by_callback: !allow },
            ),
            !old(self).enabled_events.memory_write ==> final(self).events@ == old(self).events@,
    {
        let allow = match permitted {
            Some(v) => v,
            None => true,
        };
        if self.enabled_events.memory_write {
            self.events.push(Event::MemoryWrite { address, data, prevented_by_callback: !allow });
        }
        allow
    }
}

/// An all-zero buffer of `n` pixels.
fn zero_buffer(n: usize) -> (r: Vec<u32>)
    ensures
        r@.len() == n,
        forall|i: int| 0 <= i < n ==> r@[i] == 0u32,
{
    let mut r: Vec<u32> = Vec::new();
    let mut i: usize = 0;
    while i < n
        invariant
            i <= n,
            r@.len() == i,
            forall|j: int| 0 <= j < i ==> r@[j] == 0u32,
        decreases n - i,
    {
        r.push(0u32);
        i += 1;
    }
    r
}

} // verus!
