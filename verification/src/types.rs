//! The closed enumerations and plain records that stand for the core's raw
//! constants and structures at the safe API surface.

use vstd::prelude::*;
use crate::text::{c_str_prefix, lossy_decode, lossy_decode_of, nul_prefix};

verus! {

/// One of the four audio channels of the APU.
#[derive(Copy, Clone, PartialEq, Eq, Structural, Debug)]
pub enum AudioChannel {
    /// First square wave channel.
    Square1,
    /// Second square wave channel.
    Square2,
    /// Wave table channel.
    Wave,
    /// Noise channel.
    Noise,
}

/// Specifies color correction applied to Game Boy Color output.
#[derive(Copy, Clone, PartialEq, Eq, Structural, Debug)]
pub enum ColorCorrectionMode {
    /// Color correction is disabled, and colors are mapped directly to sRGB.
    Disabled,
    /// Brightness is corrected, but hues are not.
    CorrectCurves,
    /// Brightness and hues are corrected for a modern display.
    ModernBalanced,
    /// Blue contrast is boosted beyond the balanced correction.
    BoostContrast,
    /// Contrast is reduced to better match the original display.
    ReduceContrast,
    /// Heavily reduced contrast.
    LowContrast,
    /// Brightness and hues are accurately corrected for a modern display.
    ModernAccurate,
}

/// How the audio highpass filter treats the DC offset.
#[derive(Copy, Clone, PartialEq, Eq, Structural, Debug)]
pub enum HighpassFilterMode {
    /// Do not apply any filter, keep DC offset.
    Off,
    /// Apply a highpass filter similar to the one used on hardware.
    Accurate,
    /// Remove DC offset without affecting the waveform.
    RemoveDCOffset,
    /// Upper bound marker of the filter modes.
    Max,
}

/// When the Super Game Boy border frame is drawn.
#[derive(Copy, Clone, PartialEq, Eq, Structural, Debug)]
pub enum SGBBorderMode {
    /// Only draw a border when in SGB mode.
    SGB,
    /// Never draw a border.
    Never,
    /// Always draw a border.
    Always,
}

/// One of the eight joypad buttons.
#[derive(Copy, Clone, PartialEq, Eq, Structural, Debug)]
pub enum Key {
    /// D-pad right.
    Right,
    /// D-pad left.
    Left,
    /// D-pad up.
    Up,
    /// D-pad down.
    Down,
    /// A button.
    A,
    /// B button.
    B,
    /// Select button.
    Select,
    /// Start button.
    Start,
}

/// Bit mask of one joypad button inside a packed button state byte.
#[derive(Copy, Clone, PartialEq, Eq, Structural, Debug)]
pub enum KeyMaskBit {
    /// D-pad right.
    Right,
    /// D-pad left.
    Left,
    /// D-pad up.
    Up,
    /// D-pad down.
    Down,
    /// A button.
    A,
    /// B button.
    B,
    /// Select button.
    Select,
    /// Start button.
    Start,
}

/// When cartridge rumble is driven.
#[derive(Copy, Clone, PartialEq, Eq, Structural, Debug)]
pub enum Rumble {
    /// Rumble is disabled.
    Disabled,
    /// Only cartridges with a rumble motor drive rumble.
    CartridgeOnly,
    /// Rumble is emulated for all games.
    AllGames,
}

/// How the real-time clock advances.
#[derive(Copy, Clone, PartialEq, Eq, Structural, Debug)]
pub enum RTCMode {
    /// One second in the emulator is one second on the host.
    SyncToHost,
    /// The RTC timings are accurately emulated.
    Accurate,
}

/// Uncapped ("turbo") execution versus paced execution.
#[derive(Copy, Clone, PartialEq, Eq, Structural, Debug)]
pub enum TurboMode {
    /// Turbo mode is disabled.
    Disabled,
    /// Turbo mode is enabled; frames may be skipped to keep up.
    EnabledFrameSkipped,
    /// Turbo mode is enabled and every frame is delivered.
    Enabled,
}

/// Represents all CPU registers packed into 16-bit values.
#[derive(Copy, Clone, PartialEq, Eq, Structural, Debug)]
pub struct Registers {
    /// High = A, low = flags.
    pub af: u16,
    /// High = B, low = C.
    pub bc: u16,
    /// High = D, low = E.
    pub de: u16,
    /// High = H, low = L.
    pub hl: u16,
    /// Stack pointer.
    pub sp: u16,
    /// Program counter.
    pub pc: u16,
}

/// An accessory built into the loaded cartridge.
#[derive(Copy, Clone, PartialEq, Eq, Structural, Debug)]
pub enum Accessory {
    /// No accessory.
    NoAccessory,
    /// An emulated Game Boy Printer.
    Printer,
    /// An emulated Workboy keyboard.
    Workboy,
}

impl Accessory {
    /// The accessory a raw core tag stands for, if any; an unrecognized tag
    /// is a contract violation of the assumed core API and yields `None`.
    pub open spec fn spec_from_id(id: u32) -> Option<Accessory> {
        if id == 0 {
            Some(Accessory::NoAccessory)
        } else if id == 1 {
            Some(Accessory::Printer)
        } else if id == 2 {
            Some(Accessory::Workboy)
        } else {
            None
        }
    }

    /// The accessory a raw core tag stands for, if any.
    pub fn from_id(id: u32) -> (r: Option<Accessory>)
        ensures
            r == Accessory::spec_from_id(id),
    {
        if id == 0 {
            Some(Accessory::NoAccessory)
        } else if id == 1 {
            Some(Accessory::Printer)
        } else if id == 2 {
            Some(Accessory::Workboy)
        } else {
            None
        }
    }
}

/// A named, core-defined memory window that can be accessed directly.
#[derive(Copy, Clone, PartialEq, Eq, Structural, Debug)]
pub enum DirectAccess {
    /// Cartridge ROM, current switchable bank.
    ROM,
    /// Work RAM.
    RAM,
    /// Cartridge (battery-backed) RAM.
    CARTRAM,
    /// Video RAM.
    VRAM,
    /// High RAM.
    HRAM,
    /// I/O registers.  Some registers can only be read or written correctly
    /// through the ordinary memory accessors.
    IO,
    /// Boot ROM.
    BOOTROM,
    /// Object attribute memory.
    OAM,
    /// Background palette data.
    BGP,
    /// Object palette data.
    OBP,
    /// Interrupt enable register.
    IE,
    /// Identical to ROM, but reports the bank that is mapped at the start of
    /// the address space.
    ROM0,
}

/// The kind of frame a vblank notification announces.
#[derive(Copy, Clone, PartialEq, Eq, Structural, Debug)]
pub enum VBlankType {
    /// An actual vblank-triggered frame.
    NormalFrame,
    /// A frame that was skipped to keep up with turbo execution.
    SkippedFrame,
    /// An artificial frame pushed for some other reason.
    Artificial,
    /// An artificial frame pushed while the LCD was off.
    LCDOff,
    /// A frame that would not render on actual hardware; the screen should
    /// retain the previous frame.
    Repeat,
}

impl VBlankType {
    /// The frame kind a raw core tag stands for, if any; an unrecognized tag
    /// is a contract violation of the assumed core API and yields `None`.
    pub open spec fn spec_from_id(id: u32) -> Option<VBlankType> {
        if id == 0 {
            Some(VBlankType::NormalFrame)
        } else if id == 1 {
            Some(VBlankType::SkippedFrame)
        } else if id == 2 {
            Some(VBlankType::Artificial)
        } else if id == 3 {
            Some(VBlankType::LCDOff)
        } else if id == 4 {
            Some(VBlankType::Repeat)
        } else {
            None
        }
    }

    /// The frame kind a raw core tag stands for, if any.
    pub fn from_id(id: u32) -> (r: Option<VBlankType>)
        ensures
            r == VBlankType::spec_from_id(id),
    {
        if id == 0 {
            Some(VBlankType::NormalFrame)
        } else if id == 1 {
            Some(VBlankType::SkippedFrame)
        } else if id == 2 {
            Some(VBlankType::Artificial)
        } else if id == 3 {
            Some(VBlankType::LCDOff)
        } else if id == 4 {
            Some(VBlankType::Repeat)
        } else {
            None
        }
    }
}

/// The boot ROM the core asks its embedder to provide.
#[derive(Copy, Clone, PartialEq, Eq, Structural, Debug)]
pub enum BootRomType {
    /// DMG boot ROM, revision 0.
    Dmg0,
    /// DMG boot ROM.
    Dmg,
    /// Game Boy Pocket boot ROM.
    Mgb,
    /// Super Game Boy boot ROM.
    Sgb,
    /// Super Game Boy 2 boot ROM.
    Sgb2,
    /// Game Boy Color boot ROM, revision 0.
    Cgb0,
    /// Game Boy Color boot ROM.
    Cgb,
    /// Game Boy Color boot ROM, revision E.
    CgbE,
    /// Game Boy Advance boot ROM, revision 0.
    Agb0,
    /// Game Boy Advance boot ROM.
    Agb,
}

impl BootRomType {
    /// The boot ROM kind a raw core tag stands for, if any; an unrecognized
    /// tag is a contract violation of the assumed core API and yields `None`.
    pub open spec fn spec_from_id(id: u32) -> Option<BootRomType> {
        if id == 0 {
            Some(BootRomType::Dmg0)
        } else if id == 1 {
            Some(BootRomType::Dmg)
        } else if id == 2 {
            Some(BootRomType::Mgb)
        } else if id == 3 {
            Some(BootRomType::Sgb)
        } else if id == 4 {
            Some(BootRomType::Sgb2)
        } else if id == 5 {
            Some(BootRomType::Cgb0)
        } else if id == 6 {
            Some(BootRomType::Cgb)
        } else if id == 7 {
            Some(BootRomType::CgbE)
        } else if id == 8 {
            Some(BootRomType::Agb0)
        } else if id == 9 {
            Some(BootRomType::Agb)
        } else {
            None
        }
    }

    /// The boot ROM kind a raw core tag stands for, if any.
    pub fn from_id(id: u32) -> (r: Option<BootRomType>)
        ensures
            r == BootRomType::spec_from_id(id),
    {
        if id == 0 {
            Some(BootRomType::Dmg0)
        } else if id == 1 {
            Some(BootRomType::Dmg)
        } else if id == 2 {
            Some(BootRomType::Mgb)
        } else if id == 3 {
            Some(BootRomType::Sgb)
        } else if id == 4 {
            Some(BootRomType::Sgb2)
        } else if id == 5 {
            Some(BootRomType::Cgb0)
        } else if id == 6 {
            Some(BootRomType::Cgb)
        } else if id == 7 {
            Some(BootRomType::CgbE)
        } else if id == 8 {
            Some(BootRomType::Agb0)
        } else if id == 9 {
            Some(BootRomType::Agb)
        } else {
            None
        }
    }
}

/// A single color of a monochrome palette, in 8-bit RGB.
#[derive(Copy, Clone, PartialEq, Eq, Structural, Debug)]
pub struct PaletteColor {
    /// Red component.
    pub r: u8,
    /// Green component.
    pub g: u8,
    /// Blue component.
    pub b: u8,
}

/// A full monochrome palette as the core stores it: the first four colors in
/// order of darkest to lightest, and the uppermost color is the "off" color.
pub type Palette = [PaletteColor; 5];

/// Byte layout a pixel color takes inside the rendered 32-bit pixel.
#[derive(Copy, Clone, PartialEq, Eq, Structural, Debug)]
pub enum RgbEncoding {
    /// Blue in the top byte, alpha in the low byte.
    B8G8R8X8,
    /// Red in the top byte, alpha in the low byte.
    R8G8B8X8,
    /// Alpha in the top byte, blue in the low byte.
    X8R8G8B8,
    /// Alpha in the top byte, red in the low byte.
    X8B8G8R8,
}

/// Selects which kinds of core events are recorded into the event queue.
#[derive(Copy, Clone, PartialEq, Eq, Structural, Debug)]
pub struct EnabledEvents {
    /// Record vblank events.
    ///
    /// Vblank events are still recorded even if rendering is disabled.
    pub vblank: bool,
    /// Record audio samples.
    ///
    /// A sample rate must be configured for the core to produce any.
    pub sample: bool,
    /// Record rumble events.
    ///
    /// Rumble must be enabled for the core to produce any.
    pub rumble: bool,
    /// Record printer events.
    ///
    /// An emulated printer must be connected for the core to produce any.
    pub printer: bool,
    /// Record all memory reads.
    pub memory_read: bool,
    /// Record all memory writes.
    pub memory_write: bool,
}

impl EnabledEvents {
    /// The configuration that records nothing.
    pub open spec fn spec_none() -> EnabledEvents {
        EnabledEvents {
            vblank: false,
            sample: false,
            rumble: false,
            printer: false,
            memory_read: false,
            memory_write: false,
        }
    }
}

impl Default for EnabledEvents {
    /// By default no events are recorded.
    fn default() -> (r: Self)
        ensures
            r == EnabledEvents::spec_none(),
    {
        EnabledEvents {
            vblank: false,
            sample: false,
            rumble: false,
            printer: false,
            memory_read: false,
            memory_write: false,
        }
    }
}

/// Specifies a monochrome palette for setting/getting from the emulator.
#[derive(Copy, Clone, PartialEq, Eq, Debug)]
pub struct MonochromePalette {
    /// Colors in `(r, g, b)` order.
    ///
    /// The first four colors are in order of darkest to lightest, and the
    /// uppermost color is the "off" color.
    pub rgb: [(u8, u8, u8); 5],
}

impl MonochromePalette {
    /// The color triple this palette holds at `i`.
    pub open spec fn spec_color(self, i: int) -> (u8, u8, u8) {
        self.rgb@[i]
    }

    /// Repack a palette in the core's layout into a `MonochromePalette`.
    pub fn from_gb(palette: &Palette) -> (r: Self)
        ensures
            forall|i: int|
                0 <= i < 5 ==> r.rgb@[i] == (palette@[i].r, palette@[i].g, palette@[i].b),
    {
        Self {
            rgb: [
                (palette[0].r, palette[0].g, palette[0].b),
                (palette[1].r, palette[1].g, palette[1].b),
                (palette[2].r, palette[2].g, palette[2].b),
                (palette[3].r, palette[3].g, palette[3].b),
                (palette[4].r, palette[4].g, palette[4].b),
            ],
        }
    }

    /// Repack this palette into the core's layout.
    pub fn into_gb(self) -> (r: Palette)
        ensures
            forall|i: int|
                0 <= i < 5 ==> (r@[i].r, r@[i].g, r@[i].b) == self.rgb@[i],
    {
        [
            PaletteColor { r: self.rgb[0].0, g: self.rgb[0].1, b: self.rgb[0].2 },
            PaletteColor { r: self.rgb[1].0, g: self.rgb[1].1, b: self.rgb[1].2 },
            PaletteColor { r: self.rgb[2].0, g: self.rgb[2].1, b: self.rgb[2].2 },
            PaletteColor { r: self.rgb[3].0, g: self.rgb[3].1, b: self.rgb[3].2 },
            PaletteColor { r: self.rgb[4].0, g: self.rgb[4].1, b: self.rgb[4].2 },
        ]
    }
}

/// Description of a loaded GBS (Game Boy Sound) file.
#[derive(Clone, PartialEq, Eq, Debug)]
pub struct GBSInfo {
    /// Number of tracks.
    pub track_count: u8,
    /// First track to play.
    pub first_track: u8,
    /// Title of the module.
    pub title: String,
    /// Author of the module.
    pub author: String,
    /// Copyright line of the module.
    pub copyright: String,
}

impl GBSInfo {
    /// Decode the description block the core fills in when a GBS is loaded:
    /// three NUL-terminated text fields.  The track numbering is not carried
    /// over from the raw block and is left at zero.
    pub fn from_raw(title: &[u8], author: &[u8], copyright: &[u8]) -> (r: GBSInfo)
        ensures
            r.track_count == 0,
            r.first_track == 0,
            r.title@ == lossy_decode_of(nul_prefix(title@)),
            r.author@ == lossy_decode_of(nul_prefix(author@)),
            r.copyright@ == lossy_decode_of(nul_prefix(copyright@)),
    {
        let title_prefix = c_str_prefix(title);
        let author_prefix = c_str_prefix(author);
        let copyright_prefix = c_str_prefix(copyright);
        GBSInfo {
            track_count: 0,
            first_track: 0,
            title: lossy_decode(title_prefix.as_slice()),
            author: lossy_decode(author_prefix.as_slice()),
            copyright: lossy_decode(copyright_prefix.as_slice()),
        }
    }
}

/// A page delivered by the emulated printer, fully assembled: margins
/// blank-filled and the content block copied in.
#[derive(Clone, PartialEq, Eq, Debug)]
pub struct PrinterPage {
    /// Pixels of the whole page, row-major, including the margins.
    pub data: Vec<u32>,
    /// Width of the page in pixels.
    pub width: usize,
    /// Height in pixels of the content block (margins excluded).
    pub height: usize,
    /// Height in pixels of the blank top margin.
    pub top_margin: usize,
    /// Height in pixels of the blank bottom margin.
    pub bottom_margin: usize,
    /// Exposure value the game printed with.
    pub exposure: u8,
}

} // verus!
