use rbar::module::audio::{
    audio_data_list, audio_glyph, first_device_index, AudioData, AudioDevice, AudioGlyph,
};
use rbar::module::battery::{
    battery_fill, battery_glyph, BatteryData, BatteryFill, BatteryState, BatteryWidget,
    BatteryWidgetEvent, BatteryWidgetState,
};
use rbar::module::clock::{
    clock_text, Clock, ClockConfig, ClockFormat, ClockWidget, ClockWidgetConfig,
    ClockWidgetEvent, ClockWidgetState,
};
use rbar::time::LocalTime;
use rbar::util::copy_vec;

fn sample_time() -> LocalTime {
    LocalTime { year: 2026, month: 1, day: 2, hour: 3, minute: 4, second: 5 }
}

#[test]
fn clock_format_switch_cycles_through_all_formats() {
    let mut f = ClockFormat::HH_MM;
    f.switch();
    assert_eq!(f, ClockFormat::HH_MM_SS);
    f.switch();
    assert_eq!(f, ClockFormat::DD_MM_YY_HH_MM);
    f.switch();
    assert_eq!(f, ClockFormat::DD_MM_YYYY_HH_MM);
    f.switch();
    assert_eq!(f, ClockFormat::DD_MM_YY_HH_MM_SS);
    f.switch();
    assert_eq!(f, ClockFormat::DD_MM_YYYY_HH_MM_SS);
    f.switch();
    assert_eq!(f, ClockFormat::HH_MM);
}

#[test]
fn clock_format_patterns() {
    assert_eq!(ClockFormat::HH_MM.chrono_format(), "%H:%M");
    assert_eq!(ClockFormat::HH_MM_SS.chrono_format(), "%H:%M:%S");
    assert_eq!(ClockFormat::DD_MM_YY_HH_MM.chrono_format(), "%d/%m/%y %H:%M");
    assert_eq!(ClockFormat::DD_MM_YYYY_HH_MM.chrono_format(), "%d/%m/%Y %H:%M");
    assert_eq!(ClockFormat::DD_MM_YY_HH_MM_SS.chrono_format(), "%d/%m/%y %H:%M:%S");
    assert_eq!(ClockFormat::DD_MM_YYYY_HH_MM_SS.chrono_format(), "%d/%m/%Y %H:%M:%S");
}

#[test]
fn clock_text_renders_every_format() {
    let t = sample_time();
    assert_eq!(clock_text(ClockFormat::HH_MM, t), "03:04");
    assert_eq!(clock_text(ClockFormat::HH_MM_SS, t), "03:04:05");
    assert_eq!(clock_text(ClockFormat::DD_MM_YY_HH_MM, t), "02/01/26 03:04");
    assert_eq!(clock_text(ClockFormat::DD_MM_YYYY_HH_MM, t), "02/01/2026 03:04");
    assert_eq!(clock_text(ClockFormat::DD_MM_YY_HH_MM_SS, t), "02/01/26 03:04:05");
    assert_eq!(clock_text(ClockFormat::DD_MM_YYYY_HH_MM_SS, t), "02/01/2026 03:04:05");
}

#[test]
fn clock_module_construction_reads_a_valid_time() {
    let m = Clock::new(ClockConfig);
    assert!(1 <= m.time.month && m.time.month <= 12);
    assert!(1 <= m.time.day && m.time.day <= 31);
    assert!(m.time.hour <= 23);
    assert!(m.time.minute <= 59);
    assert!(m.time.second <= 59);
}

#[test]
fn clock_widget_state_takes_config_format_and_module_time() {
    let m = Clock { time: sample_time() };
    let s = m.widget_state(ClockWidgetConfig { format: ClockFormat::HH_MM });
    assert_eq!(s.format, ClockFormat::HH_MM);
    assert_eq!(s.time, sample_time());
}

#[test]
fn clock_widget_update_switches_format_locally() {
    let mut s = ClockWidgetState { format: ClockFormat::HH_MM, time: sample_time() };
    let out = ClockWidget::update(&mut s, ClockWidgetEvent::SwitchFormat);
    assert!(out.is_none());
    assert_eq!(s.format, ClockFormat::HH_MM_SS);
    assert_eq!(s.time, sample_time());
}

#[test]
fn clock_widget_update_sets_time_locally() {
    let mut s = ClockWidgetState { format: ClockFormat::HH_MM, time: sample_time() };
    let t2 = LocalTime { year: 2027, month: 12, day: 31, hour: 23, minute: 59, second: 58 };
    let out = ClockWidget::update(&mut s, ClockWidgetEvent::SetTime(t2));
    assert!(out.is_none());
    assert_eq!(s.format, ClockFormat::HH_MM);
    assert_eq!(s.time, t2);
}

#[test]
fn battery_fill_buckets() {
    assert_eq!(battery_fill(0), BatteryFill::Outline);
    assert_eq!(battery_fill(9), BatteryFill::Outline);
    assert_eq!(battery_fill(10), BatteryFill::Ten);
    assert_eq!(battery_fill(55), BatteryFill::Fifty);
    assert_eq!(battery_fill(99), BatteryFill::Ninety);
    assert_eq!(battery_fill(100), BatteryFill::Full);
    assert_eq!(battery_fill(255), BatteryFill::Full);
}

#[test]
fn battery_glyph_charging_states() {
    let g = battery_glyph(BatteryData { level: 42, state: BatteryState::Charging });
    assert_eq!(g.charging, true);
    assert_eq!(g.fill, BatteryFill::Forty);
    let g = battery_glyph(BatteryData { level: 42, state: BatteryState::Discharging });
    assert_eq!(g.charging, false);
    let g = battery_glyph(BatteryData { level: 42, state: BatteryState::Unknown });
    assert_eq!(g.charging, false);
}

#[test]
fn battery_widget_update_replaces_data() {
    let mut s = BatteryWidgetState { data: vec![] };
    let d = vec![BatteryData { level: 80, state: BatteryState::Charging }];
    let out = BatteryWidget::update(&mut s, BatteryWidgetEvent::SetData(d));
    assert!(out.is_none());
    assert_eq!(s.data.len(), 1);
    assert_eq!(s.data[0].level, 80);
}

#[test]
fn audio_glyph_buckets() {
    assert_eq!(audio_glyph(true, 80), AudioGlyph::Mute);
    assert_eq!(audio_glyph(false, 0), AudioGlyph::Off);
    assert_eq!(audio_glyph(false, 1), AudioGlyph::Low);
    assert_eq!(audio_glyph(false, 33), AudioGlyph::Low);
    assert_eq!(audio_glyph(false, 34), AudioGlyph::Medium);
    assert_eq!(audio_glyph(false, 66), AudioGlyph::Medium);
    assert_eq!(audio_glyph(false, 67), AudioGlyph::High);
}

#[test]
fn audio_data_from_device() {
    let dev = AudioDevice { name: String::from("spkr"), muted: false, volume: 50 };
    let d = AudioData::new(&dev);
    assert_eq!(d.icon, AudioGlyph::Medium);
    assert_eq!(d.volume, 50);
    let u = AudioData::unknown();
    assert_eq!(u.icon, AudioGlyph::Off);
    assert_eq!(u.volume, 0);
}

#[test]
fn audio_first_device_index_finds_first_match() {
    let devs = vec![
        AudioDevice { name: String::from("a"), muted: false, volume: 1 },
        AudioDevice { name: String::from("b"), muted: false, volume: 2 },
        AudioDevice { name: String::from("b"), muted: false, volume: 3 },
    ];
    assert_eq!(first_device_index(&devs, &String::from("b")), Some(1));
    assert_eq!(first_device_index(&devs, &String::from("a")), Some(0));
    assert_eq!(first_device_index(&devs, &String::from("c")), None);
}

#[test]
fn audio_data_list_maps_every_device() {
    let devs = vec![
        AudioDevice { name: String::from("a"), muted: true, volume: 10 },
        AudioDevice { name: String::from("b"), muted: false, volume: 90 },
    ];
    let data = audio_data_list(&devs);
    assert_eq!(data.len(), 2);
    assert_eq!(data[0].icon, AudioGlyph::Mute);
    assert_eq!(data[0].volume, 10);
    assert_eq!(data[1].icon, AudioGlyph::High);
    assert_eq!(data[1].volume, 90);
}

#[test]
fn copy_vec_copies_elementwise() {
    let v = vec![1u8, 2, 3];
    let c = copy_vec(&v);
    assert_eq!(c, vec![1u8, 2, 3]);
}
