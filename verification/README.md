# headset_battery_indicator

A tray indicator for Windows that shows the battery level of a wireless
headset, read through the HeadsetControl library.

- `src/` is the verified library (Verus): the translated texts and the choice
  of language from the locale (`lang`), the comparison of release versions
  (`version_check`), the device model and its description (`headset_control`),
  the tray's icon and tooltip (`tray`), and the state of the context menu
  (`menu`).
- `tests/` runs the library on concrete values.
- `app/` is the program around it: the event loop, the tray and its menu on
  screen, the calls into the HeadsetControl C library, and the update check
  over HTTP.
