//! The decisions of the interactive mode: what an answer selects, which
//! settings it gives, and the command line that starts a listener.

pub mod commands;
pub mod menu;
pub mod ui;

pub use commands::Commands;
pub use menu::{menu_choice, MenuChoice};
pub use ui::UI;
