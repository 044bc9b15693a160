//! Logic of a desktop shell with a system-tray icon: the greeting command
//! offered to the web frontend, the tray menu, and the decisions that turn
//! tray and menu events into operations on the main window or an exit.
pub mod greeting;
pub mod text;
pub mod tray;
pub mod window;
