//! What the tray icon shows: which icon resource stands for a battery
//! state, and the tooltip and icon for the selected device.
use vstd::prelude::*;
use crate::headset_control::{BatteryStatus, Device, device_description};
use crate::lang::{Key, Lang, text, translate};

verus! {

/// The colour scheme of the task bar, which decides between the light and
/// the dark icon set.
#[derive(Debug, Clone, Copy, PartialEq, Eq, Structural)]
pub enum Theme {
    Light,
    Dark,
}

/// The battery level shown for a percentage, from 1 (empty) to 5 (full):
/// the battery shows 0, 25, 50, 75 or 100 percent, whichever is nearest. A
/// percentage of -1 (not reported) shows as empty; one above 87 or below -1
/// shows as full.
pub open spec fn level_step(percent: int) -> int {
    if percent == -1 {
        1
    } else if 0 <= percent <= 12 {
        1
    } else if 13 <= percent <= 37 {
        2
    } else if 38 <= percent <= 62 {
        3
    } else if 63 <= percent <= 87 {
        4
    } else {
        5
    }
}

/// The icon resource for a battery: the icons of the dark theme are 10, 20,
/// ..., 50 by level, those of the light theme 5 more; a charging battery has
/// the icon one above; an unavailable battery has the first icon of its
/// theme whatever its level.
pub open spec fn icon_id(theme: Theme, percent: int, status: BatteryStatus) -> int {
    let theme_offset = if theme == Theme::Light {
        5int
    } else {
        0int
    };
    let charging_offset = if status == BatteryStatus::Charging {
        1int
    } else {
        0int
    };
    if status == BatteryStatus::Unavailable {
        10 + theme_offset
    } else {
        level_step(percent) * 10 + theme_offset + charging_offset
    }
}

/// Whether `id` is one of the icon resources that the program carries: 10,
/// 20, ..., 50 and 15, 25, ..., 55, each with its charging icon one above.
pub open spec fn is_registered_icon(id: int) -> bool {
    10 <= id <= 56 && (id % 5 == 0 || id % 5 == 1)
}

/// Returns the icon resource that shows a battery at `battery_percent` in
/// the state `state`, in the icon set of `theme`.
pub fn battery_res_id_for(theme: Theme, battery_percent: isize, state: BatteryStatus) -> (res: u16)
    ensures
        res == icon_id(theme, battery_percent as int, state),
{
    let level: u16 = if battery_percent == -1 {
        1
    } else if 0 <= battery_percent && battery_percent <= 12 {
        1
    } else if 13 <= battery_percent && battery_percent <= 37 {
        2
    } else if 38 <= battery_percent && battery_percent <= 62 {
        3
    } else if 63 <= battery_percent && battery_percent <= 87 {
        4
    } else {
        5
    };
    let theme_offset: u16 = if theme == Theme::Light {
        5
    } else {
        0
    };
    let charging_offset: u16 = if state == BatteryStatus::Charging {
        1
    } else {
        0
    };
    if state == BatteryStatus::Unavailable {
        10 + theme_offset
    } else {
        level * 10 + theme_offset + charging_offset
    }
}

/// Every battery state has an icon among those the program carries.
pub proof fn icon_is_registered(theme: Theme, percent: int, status: BatteryStatus)
    ensures
        is_registered_icon(icon_id(theme, percent, status)),
{
}

/// The light theme's icon for a battery is the dark theme's icon plus 5.
pub proof fn light_icon_follows_dark(percent: int, status: BatteryStatus)
    ensures
        icon_id(Theme::Light, percent, status) == icon_id(Theme::Dark, percent, status) + 5,
{
}

/// A charging battery shows the icon of an available battery at the same
/// level, plus 1: the charging dot.
pub proof fn charging_icon_follows_available(theme: Theme, percent: int)
    ensures
        icon_id(theme, percent, BatteryStatus::Charging) == icon_id(
            theme,
            percent,
            BatteryStatus::Available,
        ) + 1,
{
}

/// An unavailable battery shows the same icon whatever its level.
pub proof fn unavailable_icon_ignores_level(theme: Theme, p: int, q: int)
    ensures
        icon_id(theme, p, BatteryStatus::Unavailable) == icon_id(
            theme,
            q,
            BatteryStatus::Unavailable,
        ),
{
}

/// Over the percentages 0 to 100, a fuller battery never shows an emptier
/// icon.
pub proof fn icon_monotone_in_level(theme: Theme, p: int, q: int, status: BatteryStatus)
    requires
        0 <= p <= q <= 100,
    ensures
        icon_id(theme, p, status) <= icon_id(theme, q, status),
{
}

/// The battery levels shown are exactly five: every percentage from 0 to
/// 100 shows one of them, and each of them is shown by some percentage.
pub proof fn five_levels_shown(percent: int)
    ensures
        0 <= percent <= 100 ==> 1 <= level_step(percent) <= 5,
        level_step(0) == 1 && level_step(25) == 2 && level_step(50) == 3 && level_step(75) == 4
            && level_step(100) == 5,
{
}

/// What the tray shows: the tooltip text, and the icon resource to show
/// where there is a device (else the icon stays as it is).
pub struct TrayView {
    pub tooltip: String,
    pub icon: Option<u16>,
}

/// The position of the device that the tray shows, among `count` devices,
/// when the menu has `selected` selected: the selected one, or the last one
/// where the selection lies beyond the list.
pub open spec fn shown_device_index(count: nat, selected: nat) -> nat
    recommends
        count > 0,
{
    if selected < count {
        selected
    } else {
        (count - 1) as nat
    }
}

/// Decides what the tray shows for `devices`, with the device at `selected`
/// chosen in the menu: where there is no device, the text that no adapter
/// was found and no new icon; else the description and the battery icon of
/// the chosen device, or of the last one where the choice lies beyond the
/// list.
pub fn tray_view(devices: &[Device], selected: usize, theme: Theme, lang: Lang) -> (res:
    TrayView)
    ensures
        devices@.len() == 0 ==> res.tooltip@ == text(lang, Key::no_adapter_found) && res.icon
            is None,
        devices@.len() > 0 ==> {
            let d = devices@[shown_device_index(devices@.len(), selected as nat) as int];
            &&& res.tooltip@ == device_description(d.product_name@, d.battery, lang)
            &&& res.icon == Some(
                icon_id(theme, d.battery.level_percent as int, d.battery.status) as u16,
            )
        },
{
    if devices.len() == 0 {
        return TrayView {
            tooltip: String::from_str(translate(lang, Key::no_adapter_found)),
            icon: None,
        };
    }
    let idx = if selected < devices.len() {
        selected
    } else {
        devices.len() - 1
    };
    let device = &devices[idx];
    let tooltip = device.description_in(lang);
    let icon = battery_res_id_for(theme, device.battery.level_percent as isize, device.battery.status);
    TrayView { tooltip, icon: Some(icon) }
}

/// How long the tray waits between two queries of the headset, in
/// nanoseconds: one second.
pub const REFRESH_INTERVAL_NS: u128 = 1_000_000_000;

/// Decides whether the headset is due to be queried again, `elapsed_ns`
/// nanoseconds after the last query: once more than the interval has
/// passed.
pub fn refresh_due(elapsed_ns: u128) -> (res: bool)
    ensures
        res == (elapsed_ns > REFRESH_INTERVAL_NS),
{
    elapsed_ns > REFRESH_INTERVAL_NS
}

} // verus!
