//! Built-in defaults of every setting, shared by the desktop app and the command line.

pub mod screenshots;
pub mod sheet;
pub mod reel;
pub mod animated_sheet;
