use jgenesis::gba_config::{GbaButton, GbaInputs, GbaJoypadInputs, SolarSensorState};
use jgenesis::genesis_config::cheats::GenesisCheatCodeType;
use jgenesis::genesis_config::S32XVoidColor;
use jgenesis::input::Player;
use jgenesis::nes_config::Overscan;

#[test]
fn cheat_code_type_names() {
    assert_eq!(GenesisCheatCodeType::GameGenie.to_string(), "Game Genie");
    assert_eq!(GenesisCheatCodeType::ActionReplay.to_string(), "Action Replay");
    assert_eq!(GenesisCheatCodeType::MemoryOverride.to_string(), "Memory Override");
}

#[test]
fn void_color_text() {
    assert_eq!(S32XVoidColor::PaletteRam { idx: 17 }.to_string(), "Palette RAM index 17");
    assert_eq!(
        S32XVoidColor::Direct { r: 255, g: 0, b: 31, a: true }.to_string(),
        "RGBA(255, 0, 31, 1)"
    );
    assert_eq!(S32XVoidColor::default().to_string(), "RGBA(0, 0, 0, 0)");
}

#[test]
fn overscan_text() {
    let overscan = Overscan { top: 8, bottom: 8, left: 0, right: 16 };
    assert_eq!(overscan.to_string(), "Overscan { top=8, bottom=8, left=0, right=16 }");
}

fn gba_inputs(brightness: u8) -> GbaInputs {
    GbaInputs {
        joypad: GbaJoypadInputs::default(),
        solar: SolarSensorState { brightness, ..SolarSensorState::default() },
    }
}

#[test]
fn solar_sensor_press_shows_brightness() {
    let inputs = gba_inputs(96);
    let modal = inputs
        .modal_for_input(GbaButton::SolarIncreaseBrightness, Player::One, true)
        .expect("a solar sensor press shows a message");
    assert_eq!(modal.id.as_deref(), Some("solar_sensor"));
    assert_eq!(modal.text, "Solar sensor brightness: 96");
}

#[test]
fn other_inputs_show_no_message() {
    let inputs = gba_inputs(96);
    assert!(inputs.modal_for_input(GbaButton::SolarIncreaseBrightness, Player::One, false).is_none());
    assert!(inputs.modal_for_input(GbaButton::A, Player::One, true).is_none());
}
