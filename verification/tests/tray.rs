use headset_battery_indicator::headset_control::{BatteryStatus, Device, HscBattery};
use headset_battery_indicator::lang::Lang;
use headset_battery_indicator::tray::{battery_res_id_for, refresh_due, tray_view, Theme};

fn device(name: &str, level: i32, status: BatteryStatus) -> Device {
    Device {
        product_name: name.to_string(),
        battery: HscBattery {
            level_percent: level,
            status,
            voltage_mv: -1,
            time_to_full_min: -1,
            time_to_empty_min: -1,
        },
    }
}

fn registered(id: u16) -> bool {
    let mut ids = Vec::new();
    for i in (10..=50).step_by(10) {
        ids.push(i);
        ids.push(i + 1);
    }
    for i in (15..=55).step_by(10) {
        ids.push(i);
        ids.push(i + 1);
    }
    ids.contains(&id)
}

#[test]
fn icon_ids_by_level() {
    let a = BatteryStatus::Available;
    assert_eq!(battery_res_id_for(Theme::Dark, -1, a), 10);
    assert_eq!(battery_res_id_for(Theme::Dark, 0, a), 10);
    assert_eq!(battery_res_id_for(Theme::Dark, 12, a), 10);
    assert_eq!(battery_res_id_for(Theme::Dark, 13, a), 20);
    assert_eq!(battery_res_id_for(Theme::Dark, 37, a), 20);
    assert_eq!(battery_res_id_for(Theme::Dark, 38, a), 30);
    assert_eq!(battery_res_id_for(Theme::Dark, 62, a), 30);
    assert_eq!(battery_res_id_for(Theme::Dark, 63, a), 40);
    assert_eq!(battery_res_id_for(Theme::Dark, 87, a), 40);
    assert_eq!(battery_res_id_for(Theme::Dark, 88, a), 50);
    assert_eq!(battery_res_id_for(Theme::Dark, 100, a), 50);
    // Out-of-range percentages other than -1 show as full.
    assert_eq!(battery_res_id_for(Theme::Dark, -5, a), 50);
    assert_eq!(battery_res_id_for(Theme::Dark, 250, a), 50);
}

#[test]
fn icon_ids_by_theme_and_state() {
    assert_eq!(battery_res_id_for(Theme::Light, 50, BatteryStatus::Available), 35);
    assert_eq!(battery_res_id_for(Theme::Dark, 50, BatteryStatus::Charging), 31);
    assert_eq!(battery_res_id_for(Theme::Light, 100, BatteryStatus::Charging), 56);
    assert_eq!(battery_res_id_for(Theme::Dark, 80, BatteryStatus::Unavailable), 10);
    assert_eq!(battery_res_id_for(Theme::Light, 80, BatteryStatus::Unavailable), 15);
    assert_eq!(battery_res_id_for(Theme::Dark, 80, BatteryStatus::HidError), 40);
    assert_eq!(battery_res_id_for(Theme::Light, 20, BatteryStatus::Timeout), 25);
}

#[test]
fn every_icon_is_registered() {
    let states = [
        BatteryStatus::Unavailable,
        BatteryStatus::Charging,
        BatteryStatus::Available,
        BatteryStatus::HidError,
        BatteryStatus::Timeout,
    ];
    for theme in [Theme::Light, Theme::Dark] {
        for state in states {
            let mut last = 0;
            for p in -10..=110isize {
                let id = battery_res_id_for(theme, p, state);
                assert!(registered(id), "{p} {id}");
                if (0..=100).contains(&p) {
                    assert!(id >= last);
                    last = id;
                }
            }
        }
    }
    for p in 0..=100isize {
        let dark = battery_res_id_for(Theme::Dark, p, BatteryStatus::Available);
        assert_eq!(battery_res_id_for(Theme::Light, p, BatteryStatus::Available), dark + 5);
        assert_eq!(battery_res_id_for(Theme::Dark, p, BatteryStatus::Charging), dark + 1);
    }
}

#[test]
fn tray_without_devices() {
    let v = tray_view(&vec![], 3, Theme::Dark, Lang::En);
    assert_eq!(v.tooltip, "No headphone adapter found");
    assert_eq!(v.icon, None);
    let v = tray_view(&vec![], 0, Theme::Light, Lang::It);
    assert_eq!(v.tooltip, "Nessun adattatore per cuffie trovato");
}

#[test]
fn tray_shows_selected_device() {
    let devices = vec![
        device("First", 30, BatteryStatus::Available),
        device("Second", 90, BatteryStatus::Charging),
    ];
    let v = tray_view(&devices, 0, Theme::Dark, Lang::En);
    assert_eq!(v.tooltip, "First: 30%");
    assert_eq!(v.icon, Some(20));
    let v = tray_view(&devices, 1, Theme::Light, Lang::En);
    assert_eq!(v.tooltip, "Second: 90% (Charging)");
    assert_eq!(v.icon, Some(56));
    // A selection beyond the list shows the last device.
    let v = tray_view(&devices, 7, Theme::Dark, Lang::En);
    assert_eq!(v.tooltip, "Second: 90% (Charging)");
    assert_eq!(v.icon, Some(51));
}

#[test]
fn refresh_after_one_second() {
    assert!(!refresh_due(0));
    assert!(!refresh_due(1_000_000_000));
    assert!(refresh_due(1_000_000_001));
    // A fraction of a millisecond past the second counts.
    assert!(refresh_due(1_000_500_000));
}
