//! The verified core of the Tomato Novel Downloader console and full-screen
//! interfaces: the start-up prewarm status, the settings editors, the update
//! prompts and the About page, with the text operations they rest on.

pub mod about;
pub mod cli;
pub mod config;
pub mod config_model;
pub mod noui_config;
pub mod novel_updates;
pub mod prewarm_state;
pub mod release_notes;
pub mod text;
