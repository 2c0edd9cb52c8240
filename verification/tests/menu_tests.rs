use boatctl::config::{ControlMode, Settings, SettingsValue};
use boatctl::pzconfig;
use boatctl::remote_config;

#[test]
fn panel_settings_start_in_normal_mode() {
    let s = Settings::new();
    assert_eq!(s.mode, ControlMode::Normal);
    assert_eq!(s.currentValue, SettingsValue::Deadzone);
    assert_eq!(s.channels.len(), 2);
    assert_eq!(s.channels[0].name, "Rudder");
    assert_eq!(s.channels[1].name, "Motor");
    assert_eq!(s.currentChannelName(), "Rudder");
}

#[test]
fn panel_channel_selection_wraps() {
    let mut s = Settings::new();
    s.nextChannel();
    assert_eq!(s.currentChannelName(), "Motor");
    s.nextChannel();
    assert_eq!(s.currentChannelName(), "Rudder");
    s.previousChannel();
    assert_eq!(s.currentChannelName(), "Motor");
    s.firstChannel();
    assert_eq!(s.currentChannelName(), "Rudder");
}

#[test]
fn panel_value_selection_cycles() {
    let mut s = Settings::new();
    s.nextValue();
    assert_eq!(s.currentValue, SettingsValue::Min);
    s.nextValue();
    assert_eq!(s.currentValue, SettingsValue::Max);
    s.nextValue();
    assert_eq!(s.currentValue, SettingsValue::Deadzone);
    s.previousValue();
    assert_eq!(s.currentValue, SettingsValue::Max);
}

#[test]
fn panel_add_and_sub_touch_only_the_selected_value() {
    let mut s = Settings::new();
    assert_eq!(s.getValue(), 50);
    s.addValue(10);
    assert_eq!(s.getValue(), 60);
    assert_eq!(s.channels[0].deadzone, 60);
    assert_eq!(s.channels[0].min, 1000);
    assert_eq!(s.channels[1].deadzone, 50);
    s.subValue(10);
    assert_eq!(s.getValue(), 50);
}

#[test]
fn panel_buttons_drive_the_menu() {
    let mut s = Settings::new();
    // change mode: into the channel menu, pointing at the first channel
    s.nextChannel();
    s.handle_button(2);
    assert_eq!(s.mode, ControlMode::Settings);
    assert_eq!(s.currentChannelName(), "Rudder");
    // right: next channel while choosing channels
    s.handle_button(5);
    assert_eq!(s.currentChannelName(), "Motor");
    // change mode again: adjust values
    s.handle_button(2);
    assert_eq!(s.mode, ControlMode::SettingsValue);
    // up and down move the selected value by ten
    s.handle_button(1);
    assert_eq!(s.getValue(), 60);
    s.handle_button(4);
    assert_eq!(s.getValue(), 50);
    // left cycles the value selection while adjusting
    s.handle_button(3);
    assert_eq!(s.currentValue, SettingsValue::Max);
    // cancel backs out one level at a time
    s.handle_button(0);
    assert_eq!(s.mode, ControlMode::Settings);
    s.handle_button(0);
    assert_eq!(s.mode, ControlMode::Normal);
    // an unknown button changes nothing
    let before = s.clone();
    s.handle_button(9);
    assert_eq!(s, before);
}

#[test]
fn panel_transform_rests_at_center_inside_the_deadzone() {
    let s = Settings::new();
    assert_eq!(s.channels[0].transform_adc(512), 1500);
    assert_eq!(s.channels[0].transform_adc(561), 1500);
    assert_eq!(s.channels[0].transform_adc(463), 1500);
}

#[test]
fn panel_transform_ramps_to_the_range_ends() {
    let s = Settings::new();
    assert_eq!(s.channels[0].transform_adc(1023), 2000);
    assert_eq!(s.channels[0].transform_adc(0), 1000);
    // 238 counts above the dead zone: 1500 + 238 * 500 / 461, truncated
    assert_eq!(s.channels[0].transform_adc(800), 1758);
}

#[test]
fn pz_transform_matches_the_panel_mapping() {
    let c: pzconfig::ChannelConfig = Default::default();
    assert_eq!(c.transform_adc(512), 1500);
    assert_eq!(c.transform_adc(1023), 2000);
    assert_eq!(c.transform_adc(0), 1000);
    assert_eq!(c.transform_adc(800), 1758);
}

#[test]
fn remote_settings_have_five_channels() {
    let s = remote_config::Settings::new("settings.json");
    assert_eq!(s.mode, remote_config::ControlMode::Normal);
    assert_eq!(s.channels.len(), 5);
    assert_eq!(s.current_channel_name(), "RudderStar");
    assert_eq!(s.channels[2].name, "Motor");
    assert_eq!(s.channels[4].name, "Genoa");
    assert_eq!(s.settings_path, "settings.json");
    assert_eq!(s.get_value(), 50);
}

#[test]
fn remote_transform_limits_change_to_one_step() {
    let s = remote_config::Settings::new("settings.json");
    let mut c = s.channels[0].clone();
    // the ramp says 2000, but the step limit holds the move to 100 counts
    assert_eq!(c.transform_adc(1023), 1600);
    assert_eq!(c.previous_value, 1600);
    assert_eq!(c.transform_adc(1023), 1700);
    // back inside the dead zone: towards the centre, one step at a time
    assert_eq!(c.transform_adc(512), 1600);
    assert_eq!(c.previous_value, 1600);
}

#[test]
fn remote_apply_button_scales_the_stick() {
    let s = remote_config::Settings::new("settings.json");
    let c = &s.channels[3];
    // 512 of 1024 across the 1000-count range: 500 counts of sail travel
    assert_eq!(c.apply_button(true, false, 512), 2000);
    assert_eq!(c.apply_button(false, true, 512), 1000);
    assert_eq!(c.apply_button(false, false, 512), 1500);
    assert_eq!(c.apply_button(true, true, 512), 2000);
}

#[test]
fn remote_value_cycle_covers_all_five_values() {
    let mut s = remote_config::Settings::new("settings.json");
    s.handle_button(2);
    s.handle_button(2);
    assert_eq!(s.mode, remote_config::ControlMode::SettingsValue);
    assert_eq!(s.current_value, remote_config::SettingsValue::Deadzone);
    for expected in [
        remote_config::SettingsValue::Center,
        remote_config::SettingsValue::Min,
        remote_config::SettingsValue::Max,
        remote_config::SettingsValue::Step,
        remote_config::SettingsValue::Deadzone,
    ] {
        s.handle_button(5);
        assert_eq!(s.current_value, expected);
    }
}

#[test]
fn remote_step_value_moves_by_one() {
    let mut s = remote_config::Settings::new("settings.json");
    s.handle_button(2);
    s.handle_button(2);
    // select the step limit, then press up and down
    s.handle_button(3);
    assert_eq!(s.current_value, remote_config::SettingsValue::Step);
    assert_eq!(s.get_value(), 100);
    s.handle_button(1);
    assert_eq!(s.get_value(), 101);
    s.handle_button(4);
    assert_eq!(s.get_value(), 100);
}

#[test]
fn remote_save_is_due_when_leaving_value_adjustment() {
    let mut s = remote_config::Settings::new("settings.json");
    assert!(!s.handle_button(2));
    assert_eq!(s.mode, remote_config::ControlMode::Settings);
    assert!(!s.handle_button(2));
    assert_eq!(s.mode, remote_config::ControlMode::SettingsValue);
    assert!(s.handle_button(2));
    assert_eq!(s.mode, remote_config::ControlMode::Settings);
    assert!(!s.handle_button(0));
    assert_eq!(s.mode, remote_config::ControlMode::Normal);
}
