//! The core of a terminal file browser: directory listings and their order,
//! navigation history, the modal key-handling state machine, the planning of
//! file operations, and the classification of previews.
//!
//! Nothing here touches the file system or the terminal. The state machine
//! hands out effects for a shell to perform and takes the outcomes back as
//! events.

pub mod text;
pub mod path;
pub mod views;
pub mod listing;
pub mod history;
pub mod fileops;
pub mod keys;
pub mod model;
pub mod laws;
pub mod browser;
pub mod preview;
pub mod layout;
