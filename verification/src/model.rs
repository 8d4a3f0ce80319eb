//! Hardware revisions understood by the core, and the numeric tags under
//! which the core identifies them (for example inside save states).

use vstd::prelude::*;

verus! {

/// Numeric tag of the original dot matrix Game Boy (revision B).
pub const MODEL_ID_DMG_B: u32 = 0x002;

/// Numeric tag of the NTSC Super Game Boy.
pub const MODEL_ID_SGB_NTSC: u32 = 0x004;

/// Numeric tag of the PAL Super Game Boy.
pub const MODEL_ID_SGB_PAL: u32 = 0x1004;

/// Numeric tag of the NTSC Super Game Boy without SNES HLE.
pub const MODEL_ID_SGB_NTSC_NO_SFC: u32 = 0x2004;

/// Numeric tag of the PAL Super Game Boy without SNES HLE.
pub const MODEL_ID_SGB_PAL_NO_SFC: u32 = 0x3004;

/// Numeric tag of the Game Boy Pocket.
pub const MODEL_ID_MGB: u32 = 0x100;

/// Numeric tag of the Super Game Boy 2.
pub const MODEL_ID_SGB2: u32 = 0x101;

/// Numeric tag of the Super Game Boy 2 without SNES HLE.
pub const MODEL_ID_SGB2_NO_SFC: u32 = 0x2101;

/// Numeric tag of the Game Boy Color, CGB-0 revision.
pub const MODEL_ID_CGB_0: u32 = 0x200;

/// Numeric tag of the Game Boy Color, CGB-A revision.
pub const MODEL_ID_CGB_A: u32 = 0x201;

/// Numeric tag of the Game Boy Color, CGB-B revision.
pub const MODEL_ID_CGB_B: u32 = 0x202;

/// Numeric tag of the Game Boy Color, CGB-C revision.
pub const MODEL_ID_CGB_C: u32 = 0x203;

/// Numeric tag of the Game Boy Color, CGB-D revision.
pub const MODEL_ID_CGB_D: u32 = 0x204;

/// Numeric tag of the Game Boy Color, CGB-E revision.
pub const MODEL_ID_CGB_E: u32 = 0x205;

/// Numeric tag of the Game Boy Advance, AGB-A revision.
pub const MODEL_ID_AGB_A: u32 = 0x206;

/// Numeric tag of the Game Boy Player, GBP-A revision.
pub const MODEL_ID_GBP_A: u32 = 0x10206;

/// Width in pixels of the screen of a handheld model.
pub const HANDHELD_SCREEN_WIDTH: u16 = 160;

/// Height in pixels of the screen of a handheld model.
pub const HANDHELD_SCREEN_HEIGHT: u16 = 144;

/// Width in pixels of the frame a Super Game Boy renders.
pub const SGB_SCREEN_WIDTH: u16 = 256;

/// Height in pixels of the frame a Super Game Boy renders.
pub const SGB_SCREEN_HEIGHT: u16 = 224;

/// Describes a model of Game Boy or Game Boy SoC to emulate.
#[derive(Copy, Clone, PartialEq, Eq, Structural, Debug)]
pub enum Model {
    /// DMG (original dot matrix Game Boy)
    DmgB,
    /// NTSC Super Game Boy
    SgbNtsc,
    /// PAL Super Game Boy
    SgbPal,
    /// NTSC Super Game Boy (without SNES HLE)
    SgbNtscNoSfc,
    /// PAL Super Game Boy (without SNES HLE)
    SgbPalNoSfc,
    /// Game Boy Pocket
    Mgb,
    /// Super Game Boy 2
    Sgb2,
    /// Super Game Boy 2 (without SNES HLE)
    Sgb2NoSfc,
    /// Game Boy Color (CGB-0 revision)
    Cgb0,
    /// Game Boy Color (CGB-A revision)
    CgbA,
    /// Game Boy Color (CGB-B revision)
    CgbB,
    /// Game Boy Color (CGB-C revision)
    CgbC,
    /// Game Boy Color (CGB-D revision)
    CgbD,
    /// Game Boy Color (CGB-E revision)
    CgbE,
    /// Game Boy Advance (AGB-A revision)
    AgbA,
    /// Game Boy Player (GBP-A revision)
    GbpA,
}

/// The model is unknown.
///
/// Error value for conversions from a raw model tag.
#[derive(Copy, Clone, PartialEq, Eq, Structural, Debug)]
pub struct UnknownModel(pub u32);

impl Model {
    /// The numeric tag the core uses for this model.
    pub open spec fn spec_id(self) -> u32 {
        match self {
            Model::DmgB => MODEL_ID_DMG_B,
            Model::SgbNtsc => MODEL_ID_SGB_NTSC,
            Model::SgbPal => MODEL_ID_SGB_PAL,
            Model::SgbNtscNoSfc => MODEL_ID_SGB_NTSC_NO_SFC,
            Model::SgbPalNoSfc => MODEL_ID_SGB_PAL_NO_SFC,
            Model::Mgb => MODEL_ID_MGB,
            Model::Sgb2 => MODEL_ID_SGB2,
            Model::Sgb2NoSfc => MODEL_ID_SGB2_NO_SFC,
            Model::Cgb0 => MODEL_ID_CGB_0,
            Model::CgbA => MODEL_ID_CGB_A,
            Model::CgbB => MODEL_ID_CGB_B,
            Model::CgbC => MODEL_ID_CGB_C,
            Model::CgbD => MODEL_ID_CGB_D,
            Model::CgbE => MODEL_ID_CGB_E,
            Model::AgbA => MODEL_ID_AGB_A,
            Model::GbpA => MODEL_ID_GBP_A,
        }
    }

    /// The model a numeric tag stands for, if any.
    pub open spec fn spec_of_id(id: u32) -> Option<Model> {
        if id == MODEL_ID_DMG_B {
            Some(Model::DmgB)
        } else if id == MODEL_ID_SGB_NTSC {
            Some(Model::SgbNtsc)
        } else if id == MODEL_ID_SGB_PAL {
            Some(Model::SgbPal)
        } else if id == MODEL_ID_SGB_NTSC_NO_SFC {
            Some(Model::SgbNtscNoSfc)
        } else if id == MODEL_ID_SGB_PAL_NO_SFC {
            Some(Model::SgbPalNoSfc)
        } else if id == MODEL_ID_MGB {
            Some(Model::Mgb)
        } else if id == MODEL_ID_SGB2 {
            Some(Model::Sgb2)
        } else if id == MODEL_ID_SGB2_NO_SFC {
            Some(Model::Sgb2NoSfc)
        } else if id == MODEL_ID_CGB_0 {
            Some(Model::Cgb0)
        } else if id == MODEL_ID_CGB_A {
            Some(Model::CgbA)
        } else if id == MODEL_ID_CGB_B {
            Some(Model::CgbB)
        } else if id == MODEL_ID_CGB_C {
            Some(Model::CgbC)
        } else if id == MODEL_ID_CGB_D {
            Some(Model::CgbD)
        } else if id == MODEL_ID_CGB_E {
            Some(Model::CgbE)
        } else if id == MODEL_ID_AGB_A {
            Some(Model::AgbA)
        } else if id == MODEL_ID_GBP_A {
            Some(Model::GbpA)
        } else {
            None
        }
    }

    /// The numeric tag the core uses for this model.
    pub fn id(self) -> (r: u32)
        ensures
            r == self.spec_id(),
            Model::spec_of_id(r) == Some(self),
    {
        match self {
            Model::DmgB => MODEL_ID_DMG_B,
            Model::SgbNtsc => MODEL_ID_SGB_NTSC,
            Model::SgbPal => MODEL_ID_SGB_PAL,
            Model::SgbNtscNoSfc => MODEL_ID_SGB_NTSC_NO_SFC,
            Model::SgbPalNoSfc => MODEL_ID_SGB_PAL_NO_SFC,
            Model::Mgb => MODEL_ID_MGB,
            Model::Sgb2 => MODEL_ID_SGB2,
            Model::Sgb2NoSfc => MODEL_ID_SGB2_NO_SFC,
            Model::Cgb0 => MODEL_ID_CGB_0,
            Model::CgbA => MODEL_ID_CGB_A,
            Model::CgbB => MODEL_ID_CGB_B,
            Model::CgbC => MODEL_ID_CGB_C,
            Model::CgbD => MODEL_ID_CGB_D,
            Model::CgbE => MODEL_ID_CGB_E,
            Model::AgbA => MODEL_ID_AGB_A,
            Model::GbpA => MODEL_ID_GBP_A,
        }
    }

    /// The model a numeric tag stands for; an unrecognized tag is an error,
    /// never a panic.
    pub fn try_from_id(id: u32) -> (r: Result<Model, UnknownModel>)
        ensures
            r == (match Model::spec_of_id(id) {
                Some(m) => Result::<Model, UnknownModel>::Ok(m),
                None => Result::<Model, UnknownModel>::Err(UnknownModel(id)),
            }),
    {
        if id == MODEL_ID_DMG_B {
            Ok(Model::DmgB)
        } else if id == MODEL_ID_SGB_NTSC {
            Ok(Model::SgbNtsc)
        } else if id == MODEL_ID_SGB_PAL {
            Ok(Model::SgbPal)
        } else if id == MODEL_ID_SGB_NTSC_NO_SFC {
            Ok(Model::SgbNtscNoSfc)
        } else if id == MODEL_ID_SGB_PAL_NO_SFC {
            Ok(Model::SgbPalNoSfc)
        } else if id == MODEL_ID_MGB {
            Ok(Model::Mgb)
        } else if id == MODEL_ID_SGB2 {
            Ok(Model::Sgb2)
        } else if id == MODEL_ID_SGB2_NO_SFC {
            Ok(Model::Sgb2NoSfc)
        } else if id == MODEL_ID_CGB_0 {
            Ok(Model::Cgb0)
        } else if id == MODEL_ID_CGB_A {
            Ok(Model::CgbA)
        } else if id == MODEL_ID_CGB_B {
            Ok(Model::CgbB)
        } else if id == MODEL_ID_CGB_C {
            Ok(Model::CgbC)
        } else if id == MODEL_ID_CGB_D {
            Ok(Model::CgbD)
        } else if id == MODEL_ID_CGB_E {
            Ok(Model::CgbE)
        } else if id == MODEL_ID_AGB_A {
            Ok(Model::AgbA)
        } else if id == MODEL_ID_GBP_A {
            Ok(Model::GbpA)
        } else {
            Err(UnknownModel(id))
        }
    }

    /// Whether this model is a Super Game Boy variant.
    pub open spec fn spec_is_sgb(self) -> bool {
        match self {
            Model::SgbNtsc
            | Model::SgbPal
            | Model::SgbNtscNoSfc
            | Model::SgbPalNoSfc
            | Model::Sgb2
            | Model::Sgb2NoSfc => true,
            _ => false,
        }
    }

    /// Whether this model is a Super Game Boy variant.
    pub fn is_sgb(self) -> (r: bool)
        ensures
            r == self.spec_is_sgb(),
    {
        match self {
            Model::SgbNtsc
            | Model::SgbPal
            | Model::SgbNtscNoSfc
            | Model::SgbPalNoSfc
            | Model::Sgb2
            | Model::Sgb2NoSfc => true,
            _ => false,
        }
    }

    /// Whether this model is of the Game Boy Color family (which also
    /// includes the Game Boy Advance and Game Boy Player).
    pub open spec fn spec_is_cgb(self) -> bool {
        match self {
            Model::Cgb0
            | Model::CgbA
            | Model::CgbB
            | Model::CgbC
            | Model::CgbD
            | Model::CgbE
            | Model::AgbA
            | Model::GbpA => true,
            _ => false,
        }
    }

    /// Whether this model is of the Game Boy Color family.
    pub fn is_cgb(self) -> (r: bool)
        ensures
            r == self.spec_is_cgb(),
    {
        match self {
            Model::Cgb0
            | Model::CgbA
            | Model::CgbB
            | Model::CgbC
            | Model::CgbD
            | Model::CgbE
            | Model::AgbA
            | Model::GbpA => true,
            _ => false,
        }
    }

    /// Width in pixels of the frame this model renders: a Super Game Boy
    /// renders the full SNES frame, every other model its own screen.
    pub open spec fn spec_screen_width(self) -> u16 {
        if self.spec_is_sgb() {
            SGB_SCREEN_WIDTH
        } else {
            HANDHELD_SCREEN_WIDTH
        }
    }

    /// Height in pixels of the frame this model renders.
    pub open spec fn spec_screen_height(self) -> u16 {
        if self.spec_is_sgb() {
            SGB_SCREEN_HEIGHT
        } else {
            HANDHELD_SCREEN_HEIGHT
        }
    }

    /// Width in pixels of the frame this model renders.
    pub fn screen_width(self) -> (r: u16)
        ensures
            r == self.spec_screen_width(),
    {
        if self.is_sgb() {
            SGB_SCREEN_WIDTH
        } else {
            HANDHELD_SCREEN_WIDTH
        }
    }

    /// Height in pixels of the frame this model renders.
    pub fn screen_height(self) -> (r: u16)
        ensures
            r == self.spec_screen_height(),
    {
        if self.is_sgb() {
            SGB_SCREEN_HEIGHT
        } else {
            HANDHELD_SCREEN_HEIGHT
        }
    }
}

} // verus!
