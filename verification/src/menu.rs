//! The state of the tray's context menu: the devices listed and which one
//! is selected, whether notifications are on, whether the update entry is
//! shown, and what a click on an entry asks the program to do.
use vstd::prelude::*;
use crate::headset_control::Device;
use crate::lang::{Key, Lang, text, translate};

verus! {

/// The page where releases are published.
pub open spec fn release_page_url() -> Seq<char> {
    "https://github.com/aarol/headset-battery-indicator/releases"@
}

/// The name of the log file, beside the program.
pub open spec fn log_file_name() -> Seq<char> {
    "headset-battery-indicator.log"@
}

/// An entry of the context menu that the user can click.
#[derive(Debug, Clone, Copy, PartialEq, Eq, Structural)]
pub enum MenuEntry {
    /// The check entry that turns notifications on and off.
    Notifications,
    /// The entry that shows a test notification (debug builds only).
    TriggerNotification,
    /// The entry that closes the program.
    Close,
    /// The entry that says an update is available.
    UpdateAvailable,
    /// The entry that opens the log file.
    Logs,
    /// The check entry of the device at this position in the list.
    Device(usize),
}

/// What a click asks the program to do besides changing the menu's state.
#[derive(Debug, PartialEq, Eq)]
pub enum MenuAction {
    /// Nothing.
    Nothing,
    /// Notifications were turned on or off: store the setting, set the check
    /// mark, and where they are now on, tell the user so.
    NotificationsToggled { enabled: bool },
    /// Show a test notification.
    TestNotification,
    /// Quit the program.
    Exit,
    /// Open this address in the browser.
    OpenUrl(String),
    /// Open the log file.
    OpenLogs,
    /// The device at this position is now the selected one: set the check
    /// marks.
    DeviceSelected(usize),
}

/// The state of the context menu.
pub struct ContextMenu {
    /// The names of the devices of the last listing that had any, in the
    /// order of the list.
    pub device_names: Vec<String>,
    /// Whether the device entries are in the menu.
    pub devices_shown: bool,
    /// The position of the selected device in the list.
    pub selected_device_idx: usize,
    /// Whether the notifications entry is checked.
    pub notifications_enabled: bool,
    /// Whether the entry that says an update is available is shown.
    pub update_available_shown: bool,
}

/// The selected position after a click on `entry`, for a list of
/// `names_len` devices with the device at `selected` selected: a click on a
/// device of the list selects it; any other click leaves the selection.
pub open spec fn selection_after_click(names_len: nat, selected: nat, entry: MenuEntry) -> nat {
    match entry {
        MenuEntry::Device(i) => if i < names_len {
            i as nat
        } else {
            selected
        },
        _ => selected,
    }
}

impl ContextMenu {
    /// Whether the selection lies in the list: at a listed device, or at the
    /// first position where no device is listed.
    pub open spec fn wf(&self) -> bool {
        if self.device_names@.len() == 0 {
            self.selected_device_idx == 0
        } else {
            self.selected_device_idx < self.device_names@.len()
        }
    }

    /// The state of a new menu: no device listed, the first position
    /// selected, notifications as the settings have them, no update entry.
    pub fn new(notifications_enabled: bool) -> (res: Self)
        ensures
            res.wf(),
            res.device_names@.len() == 0,
            !res.devices_shown,
            res.selected_device_idx == 0,
            res.notifications_enabled == notifications_enabled,
            !res.update_available_shown,
    {
        ContextMenu {
            device_names: Vec::new(),
            devices_shown: false,
            selected_device_idx: 0,
            notifications_enabled,
            update_available_shown: false,
        }
    }

    /// Shows the entry that says an update is available, once: returns
    /// whether the entry has to be added now, that is whether it was not
    /// shown before.
    pub fn show_update_available(&mut self) -> (added: bool)
        ensures
            added == !old(self).update_available_shown,
            old(self).wf() ==> final(self).wf(),
            final(self).update_available_shown,
            final(self).device_names == old(self).device_names,
            final(self).devices_shown == old(self).devices_shown,
            final(self).selected_device_idx == old(self).selected_device_idx,
            final(self).notifications_enabled == old(self).notifications_enabled,
    {
        if self.update_available_shown {
            return false;
        }
        self.update_available_shown = true;
        true
    }

    /// Lists `devices` in the menu. The selection stays where it was, or
    /// moves to the last device where the list has become shorter. With no
    /// device, the device entries leave the menu and the selection goes back
    /// to the first position, while the list of the devices listed before
    /// is kept.
    pub fn update_device_menu(&mut self, devices: &[Device])
        ensures
            final(self).wf(),
            final(self).devices_shown == (devices@.len() > 0),
            devices@.len() == 0 ==> final(self).device_names == old(self).device_names
                && final(self).selected_device_idx == 0,
            devices@.len() > 0 ==> {
                &&& final(self).device_names@.len() == devices@.len()
                &&& forall|i: int|
                    0 <= i < devices@.len() ==> #[trigger] final(self).device_names@[i]@
                        == devices@[i].product_name@
                &&& final(self).selected_device_idx == if old(self).selected_device_idx
                    < devices@.len() {
                    old(self).selected_device_idx as int
                } else {
                    devices@.len() - 1
                }
            },
            final(self).notifications_enabled == old(self).notifications_enabled,
            final(self).update_available_shown == old(self).update_available_shown,
    {
        if devices.len() == 0 {
            self.devices_shown = false;
            self.selected_device_idx = 0;
            return;
        }
        let mut names: Vec<String> = Vec::new();
        let mut i: usize = 0;
        while i < devices.len()
            invariant
                i <= devices@.len(),
                names@.len() == i,
                forall|j: int| 0 <= j < i ==> #[trigger] names@[j]@ == devices@[j].product_name@,
            decreases devices@.len() - i,
        {
            names.push(devices[i].product_name.clone());
            i = i + 1;
        }
        self.device_names = names;
        self.devices_shown = true;
        if self.selected_device_idx >= devices.len() {
            self.selected_device_idx = devices.len() - 1;
        }
    }

    /// Lists `devices` anew where their number differs from
    /// `previous_count`, the number of devices found by the query before,
    /// and returns whether it did; where the numbers agree the menu stays as
    /// it is.
    pub fn refresh_devices(&mut self, previous_count: usize, devices: &[Device]) -> (relisted:
        bool)
        ensures
            relisted == (devices@.len() != previous_count),
            !relisted ==> *final(self) == *old(self),
            relisted ==> {
                &&& final(self).wf()
                &&& final(self).devices_shown == (devices@.len() > 0)
                &&& devices@.len() == 0 ==> final(self).device_names == old(self).device_names
                    && final(self).selected_device_idx == 0
                &&& devices@.len() > 0 ==> {
                    &&& final(self).device_names@.len() == devices@.len()
                    &&& forall|i: int|
                        0 <= i < devices@.len() ==> #[trigger] final(self).device_names@[i]@
                            == devices@[i].product_name@
                    &&& final(self).selected_device_idx == if old(self).selected_device_idx
                        < devices@.len() {
                        old(self).selected_device_idx as int
                    } else {
                        devices@.len() - 1
                    }
                }
                &&& final(self).notifications_enabled == old(self).notifications_enabled
                &&& final(self).update_available_shown == old(self).update_available_shown
            },
    {
        if devices.len() == previous_count {
            return false;
        }
        self.update_device_menu(devices);
        true
    }

    /// Whether the device at `i` carries the check mark: the selected one
    /// does, and no other.
    pub open spec fn checked_at(&self, i: int) -> bool {
        i == self.selected_device_idx
    }

    /// Returns whether the device at `i` carries the check mark.
    pub fn is_checked(&self, i: usize) -> (res: bool)
        ensures
            res == self.checked_at(i as int),
    {
        i == self.selected_device_idx
    }

    /// Selects the device at `idx`, if the list has one there; else nothing
    /// changes.
    pub fn set_selected(&mut self, idx: usize)
        ensures
            old(self).wf() ==> final(self).wf(),
            final(self).selected_device_idx == if idx < old(self).device_names@.len() {
                idx
            } else {
                old(self).selected_device_idx
            },
            final(self).device_names == old(self).device_names,
            final(self).devices_shown == old(self).devices_shown,
            final(self).notifications_enabled == old(self).notifications_enabled,
            final(self).update_available_shown == old(self).update_available_shown,
    {
        if idx >= self.device_names.len() {
            return;
        }
        self.selected_device_idx = idx;
    }

    /// Handles a click on `entry`: turns notifications on or off, selects a
    /// device, or tells the program what to do. A click on the update entry
    /// while it is not shown, or on a device position that the list does not
    /// have, does nothing.
    pub fn handle_event(&mut self, entry: MenuEntry) -> (action: MenuAction)
        ensures
            old(self).wf() ==> final(self).wf(),
            final(self).device_names == old(self).device_names,
            final(self).devices_shown == old(self).devices_shown,
            final(self).update_available_shown == old(self).update_available_shown,
            final(self).notifications_enabled == (if entry == MenuEntry::Notifications {
                !old(self).notifications_enabled
            } else {
                old(self).notifications_enabled
            }),
            final(self).selected_device_idx == selection_after_click(
                old(self).device_names@.len(),
                old(self).selected_device_idx as nat,
                entry,
            ),
            entry matches MenuEntry::Device(i) ==> (i < old(self).device_names@.len()
                ==> final(self).selected_device_idx == i),
            !(entry is Device) ==> final(self).selected_device_idx
                == old(self).selected_device_idx,
            action matches MenuAction::DeviceSelected(j) ==> final(self).selected_device_idx == j,
            match entry {
                MenuEntry::Notifications => action == MenuAction::NotificationsToggled {
                    enabled: final(self).notifications_enabled,
                },
                MenuEntry::TriggerNotification => action == MenuAction::TestNotification,
                MenuEntry::Close => action == MenuAction::Exit,
                MenuEntry::UpdateAvailable => if old(self).update_available_shown {
                    action matches MenuAction::OpenUrl(url) && url@ == release_page_url()
                } else {
                    action == MenuAction::Nothing
                },
                MenuEntry::Logs => action == MenuAction::OpenLogs,
                MenuEntry::Device(i) => if i < old(self).device_names@.len() {
                    action == MenuAction::DeviceSelected(i)
                } else {
                    action == MenuAction::Nothing
                },
            },
    {
        match entry {
            MenuEntry::Notifications => {
                self.notifications_enabled = !self.notifications_enabled;
                MenuAction::NotificationsToggled { enabled: self.notifications_enabled }
            },
            MenuEntry::TriggerNotification => MenuAction::TestNotification,
            MenuEntry::Close => MenuAction::Exit,
            MenuEntry::UpdateAvailable => {
                if self.update_available_shown {
                    MenuAction::OpenUrl(
                        String::from_str("https://github.com/aarol/headset-battery-indicator/releases"),
                    )
                } else {
                    MenuAction::Nothing
                }
            },
            MenuEntry::Logs => MenuAction::OpenLogs,
            MenuEntry::Device(i) => {
                if i < self.device_names.len() {
                    self.set_selected(i);
                    MenuAction::DeviceSelected(i)
                } else {
                    MenuAction::Nothing
                }
            },
        }
    }
}

/// A click on a device of the list selects that device, whichever was
/// selected before; a click on a position beyond the list, or on any other
/// entry, leaves the selection where it was.
pub proof fn click_selects_listed_device(names_len: nat, selected: nat, entry: MenuEntry)
    ensures
        entry matches MenuEntry::Device(i) ==> (i < names_len ==> selection_after_click(
            names_len,
            selected,
            entry,
        ) == i),
        entry matches MenuEntry::Device(i) ==> (i >= names_len ==> selection_after_click(
            names_len,
            selected,
            entry,
        ) == selected),
        !(entry is Device) ==> selection_after_click(names_len, selected, entry) == selected,
{
}

/// In a menu whose selection lies in the list, exactly one listed device
/// carries the check mark where any device is listed.
pub proof fn one_device_checked(menu: &ContextMenu)
    requires
        menu.wf(),
        menu.device_names@.len() > 0,
    ensures
        exists|i: int|
            0 <= i < menu.device_names@.len() && #[trigger] menu.checked_at(i) && forall|j: int|
                0 <= j < menu.device_names@.len() && #[trigger] menu.checked_at(j) ==> j == i,
{
    assert(menu.checked_at(menu.selected_device_idx as int));
}

/// The label of the menu's first entry in `lang`: the word for version,
/// then " v" and `version`.
pub open spec fn version_label(lang: Lang, version: Seq<char>) -> Seq<char> {
    text(lang, Key::version) + " v"@ + version
}

/// The label of the entry that says an update is available in `lang`: a
/// bell, a space and the text.
pub open spec fn update_label(lang: Lang) -> Seq<char> {
    "🛎️ "@ + text(lang, Key::update_available)
}

/// Returns the label of the menu's first entry.
pub fn version_label_text(lang: Lang, version: &str) -> (res: String)
    ensures
        res@ == version_label(lang, version@),
{
    let mut s = String::from_str(translate(lang, Key::version));
    s.append(" v");
    s.append(version);
    s
}

/// Returns the label of the entry that says an update is available.
pub fn update_label_text(lang: Lang) -> (res: String)
    ensures
        res@ == update_label(lang),
{
    let mut s = String::from_str("🛎️ ");
    s.append(translate(lang, Key::update_available));
    s
}

/// Returns the name of the log file.
pub fn log_file() -> (res: &'static str)
    ensures
        res@ == log_file_name(),
{
    "headset-battery-indicator.log"
}

} // verus!
