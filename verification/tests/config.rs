use reznez::config::{Config, CpuStepFormatting, GuiType, Opt};
use reznez::controller::joypad::{Button, ButtonStatus};

#[test]
fn gui_type_parses_ignoring_case() {
    assert_eq!(GuiType::parse("nogui"), Ok(GuiType::NoGui));
    assert_eq!(GuiType::parse("EGui"), Ok(GuiType::Egui));
    assert_eq!(GuiType::parse("sdl"), Err("Invalid gui type: sdl".to_string()));
    assert_eq!("NOGUI".parse::<GuiType>(), Ok(GuiType::NoGui));
}

#[test]
fn cpu_step_formatting_parses_ignoring_case() {
    assert_eq!(CpuStepFormatting::parse("NoData"), Ok(CpuStepFormatting::NoData));
    assert_eq!(CpuStepFormatting::parse("data"), Ok(CpuStepFormatting::Data));
    assert_eq!(
        CpuStepFormatting::parse("verbose"),
        Err("Invalid cpu step formatting: verbose".to_string())
    );
    assert_eq!("DATA".parse::<CpuStepFormatting>(), Ok(CpuStepFormatting::Data));
}

#[test]
fn default_options() {
    let opt = Opt::new(Some("roms/game.nes".to_string()));
    assert_eq!(opt.rom_path, Some("roms/game.nes".to_string()));
    assert_eq!(opt.gui, GuiType::Egui);
    assert_eq!(opt.cpu_step_formatting, CpuStepFormatting::Data);
    assert!(!opt.prevent_saving);
    assert!(opt.scheduled_button_presses.is_empty());
}

#[test]
fn config_schedules_press_and_release() {
    let mut opt = Opt::new(None);
    opt.scheduled_button_presses = vec!["a100".to_string(), "Start5".to_string()];
    opt.prevent_saving = true;
    opt.stop_frame = Some(500);
    let config = Config::new(&opt);
    assert_eq!(config.starting_cpu_cycle, 0);
    assert!(!config.allow_saving);
    assert_eq!(config.stop_frame, Some(500));
    let events = &config.scheduled_button_events;
    assert_eq!(events.len(), 4);
    assert_eq!(events.get(&100), Some(&(Button::A, ButtonStatus::Pressed)));
    assert_eq!(events.get(&101), Some(&(Button::A, ButtonStatus::Unpressed)));
    assert_eq!(events.get(&5), Some(&(Button::Start, ButtonStatus::Pressed)));
    assert_eq!(events.get(&6), Some(&(Button::Start, ButtonStatus::Unpressed)));
}

#[test]
fn config_refuses_press_without_frame() {
    let mut opt = Opt::new(None);
    opt.scheduled_button_presses = vec!["select".to_string()];
    assert!(Config::try_new(&opt).is_none());
    opt.scheduled_button_presses = vec!["right7".to_string()];
    let config = Config::try_new(&opt).unwrap();
    assert!(config.allow_saving);
    assert_eq!(config.scheduled_button_events.get(&7), Some(&(Button::Right, ButtonStatus::Pressed)));
}

#[test]
fn press_frames_take_a_sign_and_must_fit() {
    let mut opt = Opt::new(None);
    opt.scheduled_button_presses = vec!["b-3".to_string(), "up+7".to_string()];
    let config = Config::try_new(&opt).unwrap();
    assert_eq!(config.scheduled_button_events.get(&-3), Some(&(Button::B, ButtonStatus::Pressed)));
    assert_eq!(config.scheduled_button_events.get(&-2), Some(&(Button::B, ButtonStatus::Unpressed)));
    assert_eq!(config.scheduled_button_events.get(&7), Some(&(Button::Up, ButtonStatus::Pressed)));
    opt.scheduled_button_presses = vec!["a-9223372036854775808".to_string()];
    let config = Config::try_new(&opt).unwrap();
    assert_eq!(config.scheduled_button_events.get(&i64::MIN), Some(&(Button::A, ButtonStatus::Pressed)));
    opt.scheduled_button_presses = vec!["a9223372036854775807".to_string()];
    assert!(Config::try_new(&opt).is_none());
    opt.scheduled_button_presses = vec!["a99999999999999999999".to_string()];
    assert!(Config::try_new(&opt).is_none());
    opt.scheduled_button_presses = vec!["a1x".to_string()];
    assert!(Config::try_new(&opt).is_none());
    opt.scheduled_button_presses = vec!["a-".to_string()];
    assert!(Config::try_new(&opt).is_none());
}
