use headset_battery_indicator::headset_control::{
    decimal_string, device_from_battery_query, BatteryStatus, Device, HscBattery,
    BATTERY_CAPABILITY,
};
use headset_battery_indicator::lang::{system_lang, Lang};

fn battery(level: i32, status: BatteryStatus) -> HscBattery {
    HscBattery {
        level_percent: level,
        status,
        voltage_mv: -1,
        time_to_full_min: -1,
        time_to_empty_min: -1,
    }
}

fn device(name: &str, level: i32, status: BatteryStatus) -> Device {
    Device { product_name: name.to_string(), battery: battery(level, status) }
}

#[test]
fn default_status_is_unavailable() {
    assert_eq!(BatteryStatus::default(), BatteryStatus::Unavailable);
    assert_eq!(BATTERY_CAPABILITY, 1);
}

#[test]
fn decimal_numerals() {
    assert_eq!(decimal_string(0), "0");
    assert_eq!(decimal_string(7), "7");
    assert_eq!(decimal_string(10), "10");
    assert_eq!(decimal_string(100), "100");
    assert_eq!(decimal_string(4294967295), "4294967295");
    for n in [1u32, 9, 42, 99, 101, 1234567] {
        assert_eq!(decimal_string(n), n.to_string());
    }
}

#[test]
fn status_texts() {
    let d = device("A", 50, BatteryStatus::Charging);
    assert_eq!(d.status_text_in(Lang::En), Some("(Charging)"));
    let d = device("A", 50, BatteryStatus::Available);
    assert_eq!(d.status_text_in(Lang::En), None);
    assert_eq!(d.status_text(), None);
    let d = device("A", 50, BatteryStatus::Unavailable);
    assert_eq!(d.status_text_in(Lang::Fi), Some("(Akku ei saatavilla)"));
    let d = device("A", 50, BatteryStatus::HidError);
    assert_eq!(d.status_text_in(Lang::De), Some("(Getrennt)"));
    let d = device("A", 50, BatteryStatus::Timeout);
    assert_eq!(d.status_text_in(Lang::It), Some("(Disconnesso)"));
    assert_eq!(d.status_text(), d.status_text_in(system_lang()));
}

#[test]
fn descriptions() {
    assert_eq!(
        device("Arctis Nova 7", 75, BatteryStatus::Available).description_in(Lang::En),
        "Arctis Nova 7: 75%"
    );
    assert_eq!(
        device("Arctis Nova 7", 100, BatteryStatus::Charging).description_in(Lang::En),
        "Arctis Nova 7: 100% (Charging)"
    );
    assert_eq!(
        device("G535", 0, BatteryStatus::Available).description_in(Lang::En),
        "G535"
    );
    assert_eq!(
        device("G535", -1, BatteryStatus::Unavailable).description_in(Lang::De),
        "G535 (Akkustand nicht verfügbar)"
    );
    assert_eq!(
        device("HS80", 5, BatteryStatus::Timeout).description_in(Lang::Fi),
        "HS80: 5% (Ei yhteyttä)"
    );
    let d = device("HS80", 5, BatteryStatus::Timeout);
    assert_eq!(d.to_string(), d.description_in(system_lang()));
}

#[test]
fn battery_queries() {
    let b = battery(80, BatteryStatus::Available);
    let d = device_from_battery_query(0, b, Some("Cloud II".to_string())).unwrap();
    assert_eq!(d.product_name, "Cloud II");
    assert_eq!(d.battery, b);
    let d = device_from_battery_query(0, b, None).unwrap();
    assert_eq!(d.product_name, "Unknown");
    assert!(device_from_battery_query(1, b, Some("Cloud II".to_string())).is_none());
    assert!(device_from_battery_query(-1, b, None).is_none());
}
