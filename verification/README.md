# egui_pie_menu

A radial (pie) menu for egui. The crate under `src/` is the menu's interaction
logic, verified with Verus: which button a digit or mnemonic key picks, which
inputs dismiss the menu, how the pointer selects, and how a release of the
hotkey is answered (selection, dismissal, quick tap, double tap). The caller
hands it one frame of input at a time (`FrameInput`) and gets a
`PieMenuResponse` back.

`app/` holds the egui side: settings with floating-point geometry, reading
egui's input into a `FrameInput`, measuring the pointer against the button
directions, clamping the menu to the screen, and painting.
