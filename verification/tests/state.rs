use safeboy::event::Event;
use safeboy::gb::{model_for_save_state, BusyError, Gameboy, ReadSaveStateError};
use safeboy::model::Model;
use safeboy::types::{EnabledEvents, RgbEncoding, VBlankType};

fn fresh(model: Model) -> Gameboy {
    Gameboy::new(model, RgbEncoding::X8R8G8B8, EnabledEvents::default())
}

fn all_models() -> Vec<Model> {
    vec![
        Model::DmgB,
        Model::SgbNtsc,
        Model::SgbPal,
        Model::SgbNtscNoSfc,
        Model::SgbPalNoSfc,
        Model::Mgb,
        Model::Sgb2,
        Model::Sgb2NoSfc,
        Model::Cgb0,
        Model::CgbA,
        Model::CgbB,
        Model::CgbC,
        Model::CgbD,
        Model::CgbE,
        Model::AgbA,
        Model::GbpA,
    ]
}

#[test]
fn new_instance_pixel_buffer_matches_model_dimensions() {
    for model in all_models() {
        let mut gb = fresh(model);
        gb.begin_run().unwrap();
        gb.end_run();
        let w = gb.get_screen_width();
        let h = gb.get_screen_height();
        assert_eq!(gb.get_pixel_buffer().len(), w * h);
        if model.is_sgb() {
            assert_eq!((w, h), (256, 224));
        } else {
            assert_eq!((w, h), (160, 144));
        }
        assert!(gb.get_pixel_buffer().iter().all(|px| *px == 0));
    }
}

#[test]
fn idle_only_operations_rejected_while_running_then_accepted() {
    let mut gb = fresh(Model::DmgB);
    gb.begin_run().unwrap();

    assert_eq!(gb.assert_not_running(), Err(BusyError));
    assert_eq!(gb.begin_run(), Err(BusyError));
    assert_eq!(gb.switch_model_and_reset(Model::CgbE), Err(BusyError));
    assert_eq!(gb.set_enabled_events(EnabledEvents::default()), Err(BusyError));
    assert_eq!(gb.set_callbacks(None), Err(BusyError));
    assert_eq!(gb.get_model(), Model::DmgB);

    gb.end_run();

    assert_eq!(gb.assert_not_running(), Ok(()));
    assert_eq!(gb.set_enabled_events(EnabledEvents::default()), Ok(()));
    assert_eq!(gb.switch_model_and_reset(Model::CgbE), Ok(()));
    assert_eq!(gb.get_model(), Model::CgbE);
}

#[test]
fn guard_is_restored_by_end_run() {
    let mut gb = fresh(Model::DmgB);
    assert!(!gb.is_running());
    gb.begin_run().unwrap();
    assert!(gb.is_running());
    gb.end_run();
    assert!(!gb.is_running());
    gb.begin_run().unwrap();
    gb.end_run();
    assert!(!gb.is_running());
}

#[test]
fn disabling_rendering_empties_buffer_and_reenabling_zeroes_it() {
    let mut gb = fresh(Model::DmgB);
    // Let some pixels accumulate, as the core would write them.
    for px in gb.pixel_buffer.iter_mut() {
        *px = 0xDEADBEEF;
    }
    gb.set_rendering_disabled(true);
    assert_eq!(gb.get_pixel_buffer().len(), 0);

    gb.set_rendering_disabled(false);
    assert_eq!(gb.get_pixel_buffer().len(), 160 * 144);
    assert!(gb.get_pixel_buffer().iter().all(|px| *px == 0));
}

#[test]
fn memory_write_verdict_is_forwarded_verbatim() {
    let mut events = EnabledEvents::default();
    events.memory_write = true;
    let mut gb = Gameboy::new(Model::DmgB, RgbEncoding::X8R8G8B8, events);

    assert!(!gb.on_memory_write(0xC000, 0x42, Some(false)));
    assert!(gb.on_memory_write(0xC001, 0x43, Some(true)));
    assert!(gb.on_memory_write(0xC002, 0x44, None));

    let drained = gb.iter_events();
    assert_eq!(drained.len(), 3);
    assert_eq!(
        drained[0],
        Event::MemoryWrite { address: 0xC000, data: 0x42, prevented_by_callback: true }
    );
    assert_eq!(
        drained[1],
        Event::MemoryWrite { address: 0xC001, data: 0x43, prevented_by_callback: false }
    );
    assert_eq!(
        drained[2],
        Event::MemoryWrite { address: 0xC002, data: 0x44, prevented_by_callback: false }
    );
}

#[test]
fn memory_read_replacement_is_returned_and_recorded() {
    let mut events = EnabledEvents::default();
    events.memory_read = true;
    let mut gb = Gameboy::new(Model::DmgB, RgbEncoding::X8R8G8B8, events);

    assert_eq!(gb.on_memory_read(0x0100, 0x11, None), 0x11);
    assert_eq!(gb.on_memory_read(0x0101, 0x22, Some(0x99)), 0x99);

    let drained = gb.iter_events();
    assert_eq!(
        drained[0],
        Event::MemoryRead { address: 0x0100, original_data: 0x11, final_data: 0x11 }
    );
    assert_eq!(
        drained[1],
        Event::MemoryRead { address: 0x0101, original_data: 0x22, final_data: 0x99 }
    );
}

#[test]
fn failed_state_load_leaves_instance_unchanged() {
    let mut gb = fresh(Model::Sgb2);
    gb.fixup_rom_title(b"TEST\0");
    let width_before = gb.get_screen_width();
    let buffer_before = gb.get_pixel_buffer().to_vec();

    assert_eq!(gb.load_state_apply(1, Model::CgbE), Err(ReadSaveStateError::Other));

    assert_eq!(gb.get_model(), Model::Sgb2);
    assert_eq!(gb.get_screen_width(), width_before);
    assert_eq!(gb.get_pixel_buffer(), buffer_before.as_slice());
    assert_eq!(gb.get_rom_title(), "TEST");
}

#[test]
fn successful_state_load_adopts_model_and_resets_buffer() {
    let mut gb = fresh(Model::Sgb2);
    assert_eq!(gb.get_screen_width(), 256);

    assert_eq!(gb.load_state_apply(0, Model::DmgB), Ok(()));

    assert_eq!(gb.get_model(), Model::DmgB);
    assert_eq!(gb.get_screen_width(), 160);
    assert_eq!(gb.get_pixel_buffer().len(), 160 * 144);
    assert!(gb.get_pixel_buffer().iter().all(|px| *px == 0));
}

#[test]
fn model_for_save_state_unknown_model_is_error_not_panic() {
    assert_eq!(model_for_save_state(0, 0x0999), Err(ReadSaveStateError::Other));
    assert_eq!(model_for_save_state(0, 0xFFFF_FFFF), Err(ReadSaveStateError::Other));
}

#[test]
fn model_for_save_state_outcomes() {
    assert_eq!(model_for_save_state(0, 0x002), Ok(Model::DmgB));
    assert_eq!(model_for_save_state(0, 0x10206), Ok(Model::GbpA));
    assert_eq!(model_for_save_state(-1, 0x002), Err(ReadSaveStateError::Other));
    assert_eq!(model_for_save_state(7, 0x002), Err(ReadSaveStateError::Other));
}

#[test]
fn events_are_recorded_in_order_and_drained() {
    let mut events = EnabledEvents::default();
    events.sample = true;
    events.vblank = true;
    let mut gb = Gameboy::new(Model::DmgB, RgbEncoding::X8R8G8B8, events);

    gb.on_sample(-3, 7);
    gb.on_vblank(VBlankType::NormalFrame);
    gb.on_rumble(0x3FF0000000000000);  // rumble recording is off

    let drained = gb.iter_events();
    assert_eq!(drained.len(), 2);
    assert_eq!(drained[0], Event::Sample { left: -3, right: 7 });
    assert_eq!(drained[1], Event::VBlank { vblank_type: VBlankType::NormalFrame });

    assert!(gb.iter_events().is_empty());
}

#[test]
fn disabled_event_kinds_are_not_recorded() {
    let mut gb = fresh(Model::DmgB);
    gb.on_sample(1, 1);
    gb.on_vblank(VBlankType::Repeat);
    gb.on_rumble(0);
    gb.on_memory_read(0, 0, None);
    gb.on_memory_write(0, 0, None);
    assert!(gb.iter_events().is_empty());
}

#[test]
fn set_callbacks_installs_and_clears_the_recording_policy() {
    let mut gb = fresh(Model::DmgB);
    let mut events = EnabledEvents::default();
    events.rumble = true;
    gb.set_callbacks(Some(events)).unwrap();
    assert_eq!(gb.get_enabled_events(), events);

    gb.on_rumble(0x123);
    assert_eq!(gb.iter_events(), vec![Event::Rumble { amplitude_bits: 0x123 }]);

    gb.set_callbacks(None).unwrap();
    assert_eq!(gb.get_enabled_events(), EnabledEvents::default());
    gb.on_rumble(0x123);
    assert!(gb.iter_events().is_empty());
}

#[test]
fn switch_model_and_reset_resizes_render_target() {
    let mut gb = fresh(Model::DmgB);
    assert_eq!(gb.get_pixel_buffer().len(), 160 * 144);
    gb.switch_model_and_reset(Model::SgbPal).unwrap();
    assert_eq!(gb.get_screen_width(), 256);
    assert_eq!(gb.get_screen_height(), 224);
    assert_eq!(gb.get_pixel_buffer().len(), 256 * 224);
    assert!(gb.get_pixel_buffer().iter().all(|px| *px == 0));
}

#[test]
fn rendering_stays_disabled_across_model_switch() {
    let mut gb = fresh(Model::DmgB);
    gb.set_rendering_disabled(true);
    gb.switch_model_and_reset(Model::SgbPal).unwrap();
    assert_eq!(gb.get_pixel_buffer().len(), 0);
    gb.set_rendering_disabled(false);
    assert_eq!(gb.get_pixel_buffer().len(), 256 * 224);
}

#[test]
fn rom_title_is_cut_at_first_nul_and_decoded() {
    let mut gb = fresh(Model::DmgB);
    gb.fixup_rom_title(b"TETRIS\0\0\0\0\0\0\0\0\0\0\0");
    assert_eq!(gb.get_rom_title(), "TETRIS");
    gb.fixup_rom_title(b"\0\0\0\0\0\0\0\0\0\0\0\0\0\0\0\0\0");
    assert_eq!(gb.get_rom_title(), "");
}
