//! Per-window keyboard layout bookkeeping for a tiling window manager.
//!
//! The library is the decision-making core of a small daemon: it remembers,
//! per window (container), which keyboard layout was last active there, and
//! decides when a layout-switch command has to go out to the compositor.
//! All wire I/O (the IPC connection, the event stream, command submission)
//! lives outside the library; callers hand in plain values describing input
//! devices and events, and receive back the actions to perform.

pub mod cli;
pub mod config;
pub mod device;
pub mod error;
pub mod laws;
pub mod layout;
pub mod manager;

pub use cli::Cli;
pub use error::Error;
pub use layout::LayoutError;
