//! Decision logic of an auto clicker: click settings, the worker that turns
//! them into mouse actions, the sequence editor, hotkeys and profile naming.

pub mod clicker;
pub mod worker;
pub mod text;
pub mod hotkey;
pub mod session;
pub mod profile;
