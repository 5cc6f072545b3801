//! Logic of a tray indicator that shows the battery level of a wireless headset:
//! translations, version comparison, icon selection, the device model and the
//! context menu's state.
pub mod lang;
pub mod version_check;
pub mod headset_control;
pub mod tray;
pub mod menu;
