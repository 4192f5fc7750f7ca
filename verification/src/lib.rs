//! A minimal desktop-shell library: the decision logic behind a tray-icon
//! application whose main window minimizes to the tray instead of closing.
//!
//! The library holds the verified core: the platform-to-launcher mapping for
//! opening URLs, the tray-menu and window-event routing, the window
//! visibility state machine, and the single-use handoff that bridges an
//! asynchronous folder-dialog callback to a synchronous caller. The GUI host
//! itself (windows, tray rendering, native dialogs, process spawning) lives
//! outside the library and consumes these decisions.

pub mod dialog;
pub mod launcher;
pub mod tray;
pub mod window;
