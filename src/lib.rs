//! Decision logic of a desktop shell that hosts an immediate-mode GUI: how the
//! window title is derived, how the DPI override is read, and what the event
//! loop does for each event it is handed.
pub mod dpi;
pub mod frame_loop;
pub mod title;
