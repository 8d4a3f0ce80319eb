use safeboy::gb::Gameboy;
use safeboy::model::{Model, UnknownModel};
use safeboy::rgb_encoder::{encode_a8b8g8a8, encode_a8r8g8b8, encode_b8g8a8a8, encode_r8g8b8a8};
use safeboy::text::c_str_prefix;
use safeboy::types::{
    Accessory, BootRomType, EnabledEvents, GBSInfo, MonochromePalette, Palette, PaletteColor,
    RgbEncoding, VBlankType,
};

#[test]
fn model_ids_round_trip() {
    let models = vec![
        Model::DmgB,
        Model::SgbNtsc,
        Model::SgbPal,
        Model::SgbNtscNoSfc,
        Model::SgbPalNoSfc,
        Model::Mgb,
        Model::Sgb2,
        Model::Sgb2NoSfc,
        Model::Cgb0,
        Model::CgbA,
        Model::CgbB,
        Model::CgbC,
        Model::CgbD,
        Model::CgbE,
        Model::AgbA,
        Model::GbpA,
    ];
    for model in models {
        assert_eq!(Model::try_from_id(model.id()), Ok(model));
    }
}

#[test]
fn model_id_exact_values() {
    assert_eq!(Model::DmgB.id(), 0x002);
    assert_eq!(Model::SgbNtsc.id(), 0x004);
    assert_eq!(Model::SgbPal.id(), 0x1004);
    assert_eq!(Model::Mgb.id(), 0x100);
    assert_eq!(Model::CgbE.id(), 0x205);
    assert_eq!(Model::GbpA.id(), 0x10206);
}

#[test]
fn unknown_model_id_is_an_error() {
    assert_eq!(Model::try_from_id(0x003), Err(UnknownModel(0x003)));
    assert_eq!(Model::try_from_id(0xFFFF), Err(UnknownModel(0xFFFF)));
}

#[test]
fn model_flags_and_dimensions() {
    assert!(Model::Sgb2.is_sgb());
    assert!(!Model::DmgB.is_sgb());
    assert!(Model::GbpA.is_cgb());
    assert!(!Model::SgbPal.is_cgb());
    assert_eq!(Model::SgbPal.screen_width(), 256);
    assert_eq!(Model::SgbPal.screen_height(), 224);
    assert_eq!(Model::CgbA.screen_width(), 160);
    assert_eq!(Model::CgbA.screen_height(), 144);
}

#[test]
fn rgb_encoders_produce_exact_packings() {
    assert_eq!(encode_a8r8g8b8(0x12, 0x34, 0x56), 0xFF123456);
    assert_eq!(encode_a8b8g8a8(0x12, 0x34, 0x56), 0xFF563412);
    assert_eq!(encode_r8g8b8a8(0x12, 0x34, 0x56), 0x123456FF);
    assert_eq!(encode_b8g8a8a8(0x12, 0x34, 0x56), 0x563412FF);
}

#[test]
fn configured_encoding_is_used_for_rendering() {
    let gb = Gameboy::new(Model::DmgB, RgbEncoding::R8G8B8X8, EnabledEvents::default());
    assert_eq!(gb.encode_rgb(0x12, 0x34, 0x56), 0x123456FF);
    let gb = Gameboy::new(Model::DmgB, RgbEncoding::X8B8G8R8, EnabledEvents::default());
    assert_eq!(gb.encode_rgb(0x12, 0x34, 0x56), 0xFF563412);
}

#[test]
fn vblank_types_from_raw_tags() {
    assert_eq!(VBlankType::from_id(0), Some(VBlankType::NormalFrame));
    assert_eq!(VBlankType::from_id(1), Some(VBlankType::SkippedFrame));
    assert_eq!(VBlankType::from_id(2), Some(VBlankType::Artificial));
    assert_eq!(VBlankType::from_id(3), Some(VBlankType::LCDOff));
    assert_eq!(VBlankType::from_id(4), Some(VBlankType::Repeat));
    assert_eq!(VBlankType::from_id(5), None);
}

#[test]
fn accessory_from_raw_tags() {
    assert_eq!(Accessory::from_id(0), Some(Accessory::NoAccessory));
    assert_eq!(Accessory::from_id(1), Some(Accessory::Printer));
    assert_eq!(Accessory::from_id(2), Some(Accessory::Workboy));
    assert_eq!(Accessory::from_id(3), None);
}

#[test]
fn boot_rom_types_from_raw_tags() {
    assert_eq!(BootRomType::from_id(0), Some(BootRomType::Dmg0));
    assert_eq!(BootRomType::from_id(9), Some(BootRomType::Agb));
    assert_eq!(BootRomType::from_id(10), None);
}

#[test]
fn monochrome_palette_round_trips() {
    let palette = MonochromePalette {
        rgb: [(0, 1, 2), (10, 11, 12), (20, 21, 22), (30, 31, 32), (40, 41, 42)],
    };
    let raw: Palette = palette.into_gb();
    assert_eq!(raw[1], PaletteColor { r: 10, g: 11, b: 12 });
    assert_eq!(MonochromePalette::from_gb(&raw), palette);
}

#[test]
fn gbs_info_decodes_nul_terminated_fields() {
    let mut title = [0u8; 33];
    title[..5].copy_from_slice(b"SOUND");
    let mut author = [0u8; 33];
    author[..4].copy_from_slice(b"NOBY");
    let copyright = [0u8; 33];

    let info = GBSInfo::from_raw(&title, &author, &copyright);
    assert_eq!(info.title, "SOUND");
    assert_eq!(info.author, "NOBY");
    assert_eq!(info.copyright, "");
    assert_eq!(info.track_count, 0);
    assert_eq!(info.first_track, 0);
}

#[test]
fn c_str_prefix_stops_at_first_nul() {
    assert_eq!(c_str_prefix(b"AB\0CD"), b"AB".to_vec());
    assert_eq!(c_str_prefix(b"\0CD"), Vec::<u8>::new());
    assert_eq!(c_str_prefix(b"ABCD"), b"ABCD".to_vec());
    assert_eq!(c_str_prefix(b""), Vec::<u8>::new());
}

#[test]
fn rom_title_with_invalid_utf8_is_decoded_lossily() {
    let mut gb = Gameboy::new(Model::DmgB, RgbEncoding::X8R8G8B8, EnabledEvents::default());
    gb.fixup_rom_title(&[0x41, 0x42, 0xFF, 0x43, 0x00]);
    assert_eq!(gb.get_rom_title(), "AB\u{FFFD}C");
}
