//! The headset as the indicator sees it: its name and what the headset
//! control library reported of its battery, and how it is described to the
//! user.
use vstd::prelude::*;
use crate::lang::{Key, Lang, system_lang, text, translate};

verus! {

/// The state of a headset's battery, as the headset control library
/// reports it.
#[derive(Debug, Clone, Copy, PartialEq, Eq, Structural)]
pub enum BatteryStatus {
    Unavailable,
    Charging,
    Available,
    HidError,
    Timeout,
}

impl Default for BatteryStatus {
    fn default() -> (res: Self)
        ensures
            res == BatteryStatus::Unavailable,
    {
        BatteryStatus::Unavailable
    }
}

/// What the headset control library reports of a headset's battery. A
/// field that the headset does not report holds -1.
#[derive(Debug, Clone, Copy, PartialEq, Eq, Structural)]
pub struct HscBattery {
    pub level_percent: i32,
    pub status: BatteryStatus,
    pub voltage_mv: i32,
    pub time_to_full_min: i32,
    pub time_to_empty_min: i32,
}

/// The capability flag under which the headset control library reports a
/// battery.
pub const BATTERY_CAPABILITY: i32 = 1;

/// A headset that reported its battery.
pub struct Device {
    pub product_name: String,
    pub battery: HscBattery,
}

/// The name given to a headset whose name is not valid text.
pub open spec fn unknown_name() -> Seq<char> {
    "Unknown"@
}

/// Builds the device from the answer to a battery query: the query
/// succeeded where `status_code` is 0, and then the device carries `battery`
/// and `name`, or "Unknown" where the name was not valid text.
pub fn device_from_battery_query(status_code: i32, battery: HscBattery, name: Option<String>) -> (res:
    Option<Device>)
    ensures
        res is Some <==> status_code == 0,
        res matches Some(d) ==> {
            &&& d.battery == battery
            &&& d.product_name@ == match name {
                Some(n) => n@,
                None => unknown_name(),
            }
        },
{
    if status_code != 0 {
        return None;
    }
    let product_name = match name {
        Some(n) => n,
        None => "Unknown".to_owned(),
    };
    Some(Device { product_name, battery })
}

/// The text key that describes a battery status, if the status needs a
/// description: none while the battery is available.
pub open spec fn status_key(status: BatteryStatus) -> Option<Key> {
    match status {
        BatteryStatus::Charging => Some(Key::device_charging),
        BatteryStatus::Available => None,
        BatteryStatus::Unavailable => Some(Key::battery_unavailable),
        _ => Some(Key::device_disconnected),
    }
}

/// The description of `status` in `lang`, if it needs one.
pub open spec fn status_description(status: BatteryStatus, lang: Lang) -> Option<Seq<char>> {
    match status_key(status) {
        Some(key) => Some(text(lang, key)),
        None => None,
    }
}

/// The decimal numeral of `n`, without leading zeros.
pub open spec fn decimal_text(n: nat) -> Seq<char>
    decreases n,
{
    if n < 10 {
        seq![digit_char(n)]
    } else {
        decimal_text(n / 10).push(digit_char(n % 10))
    }
}

/// The character of the decimal digit `d`.
pub open spec fn digit_char(d: nat) -> char {
    ('0' as int + d) as char
}

/// How a device is described to the user in `lang`: its name, then ": ",
/// its battery level and "%" where the level is positive, then a space and
/// the description of its battery status where the status needs one.
pub open spec fn device_description(name: Seq<char>, battery: HscBattery, lang: Lang) -> Seq<
    char,
> {
    let head = if battery.level_percent > 0 {
        name + ": "@ + decimal_text(battery.level_percent as nat) + "%"@
    } else {
        name
    };
    match status_description(battery.status, lang) {
        Some(d) => head + " "@ + d,
        None => head,
    }
}

fn digit_str(d: u32) -> (res: &'static str)
    requires
        d < 10,
    ensures
        res@ == seq![digit_char(d as nat)],
{
    proof {
        reveal_strlit("0");
        reveal_strlit("1");
        reveal_strlit("2");
        reveal_strlit("3");
        reveal_strlit("4");
        reveal_strlit("5");
        reveal_strlit("6");
        reveal_strlit("7");
        reveal_strlit("8");
        reveal_strlit("9");
    }
    if d == 0 {
        "0"
    } else if d == 1 {
        "1"
    } else if d == 2 {
        "2"
    } else if d == 3 {
        "3"
    } else if d == 4 {
        "4"
    } else if d == 5 {
        "5"
    } else if d == 6 {
        "6"
    } else if d == 7 {
        "7"
    } else if d == 8 {
        "8"
    } else {
        "9"
    }
}

/// Returns the decimal numeral of `n`.
pub fn decimal_string(n: u32) -> (res: String)
    ensures
        res@ == decimal_text(n as nat),
    decreases n,
{
    if n < 10 {
        String::from_str(digit_str(n))
    } else {
        let mut s = decimal_string(n / 10);
        s.append(digit_str(n % 10));
        s
    }
}

impl Device {
    /// The description of the battery status in `lang`, if it needs one.
    pub fn status_text_in(&self, lang: Lang) -> (res: Option<&'static str>)
        ensures
            match res {
                Some(s) => status_description(self.battery.status, lang) == Some(s@),
                None => status_description(self.battery.status, lang) is None,
            },
    {
        match self.battery.status {
            BatteryStatus::Charging => Some(translate(lang, Key::device_charging)),
            BatteryStatus::Available => None,
            BatteryStatus::Unavailable => Some(translate(lang, Key::battery_unavailable)),
            _ => Some(translate(lang, Key::device_disconnected)),
        }
    }

    /// The description of the battery status in the system's language, if
    /// it needs one. Which language that is depends on the machine.
    pub fn status_text(&self) -> (res: Option<&'static str>)
        ensures
            res is None <==> status_key(self.battery.status) is None,
            res matches Some(s) ==> exists|lang: Lang|
                #[trigger] status_description(self.battery.status, lang) == Some(s@),
    {
        self.status_text_in(system_lang())
    }

    /// How the device is described to the user in `lang`.
    pub fn description_in(&self, lang: Lang) -> (res: String)
        ensures
            res@ == device_description(self.product_name@, self.battery, lang),
    {
        let mut s = self.product_name.clone();
        if self.battery.level_percent > 0 {
            s.append(": ");
            let digits = decimal_string(self.battery.level_percent as u32);
            s.append(digits.as_str());
            s.append("%");
        }
        match self.status_text_in(lang) {
            Some(status) => {
                s.append(" ");
                s.append(status);
            },
            None => {},
        }
        s
    }

    /// How the device is described to the user in the system's language.
    /// Which language that is depends on the machine.
    pub fn to_string(&self) -> (res: String)
        ensures
            exists|lang: Lang| #[trigger] device_description(self.product_name@, self.battery, lang) == res@,
    {
        self.description_in(system_lang())
    }
}

} // verus!
