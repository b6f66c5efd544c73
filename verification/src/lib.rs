//! A radial (pie) menu: what it answers to each frame of input, verified.
//!
//! The menu keeps the interaction state that outlives a frame (the button under
//! the pointer, whether the hotkey's release has been answered, whether the menu
//! has been shown, the last quick tap) and answers each frame from the keys,
//! clicks and pointer reading the caller hands it.
pub mod button;
pub mod keys;
pub mod menu;
pub mod settings;

pub use button::{has_duplicate_mnemonics, mnemonic_char_index, PieButton};
pub use keys::{char_to_key, direction_numpad, InputKey, PointerButton};
pub use menu::{
    dismiss_input_triggered, follows_pointer, key_selection, nearest_button, FrameInput, MenuModel, PieMenu,
    PieMenuResponse, PointerReading,
};
pub use settings::{
    draws_center_highlight, HighlightStep, PieDirection, PieMenuAnimations, PieMenuDismissInput,
    PieMenuHighlightShape, PieMenuInput, ShowBehavior,
};
