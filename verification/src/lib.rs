//! Canonical-source editing model for a Markdown editor: line-ending
//! preserving reconciliation of editor text, the save lifecycle and its
//! debounced autosave, external-change conflicts, link-click decisions,
//! and the pure judgements of the WebView release harness.

pub mod save;
pub mod text;
pub mod editor_text;
pub mod conflict;
pub mod session;
pub mod store;
pub mod link_click;
pub mod fmt;
pub mod toast;
pub mod catalog;
pub mod link_judge;
pub mod link_layer_two;
pub mod release;
pub mod release_bytes;
pub mod release_launch;
pub mod release_seed;
pub mod transport;
pub mod smoke;
pub mod shell_behaviour;
pub mod trusted_click;
pub mod paste_report;
pub mod settle;
pub mod editor_mode;
pub mod diagnose;
pub mod transport_guard;
pub mod link_clicks;
pub mod key_spike;
pub mod export;
pub mod fixture;
pub mod recovery;
pub mod wait;
pub mod save_run;
pub mod toast_log;
