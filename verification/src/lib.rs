//! Verified core of a desktop macro editor: the model of recorded macros,
//! the conversions between keys, buttons and their display names, the editor's
//! state machine, and the step-by-step plan by which a macro is replayed.
pub mod input;
pub mod ui_utils;
pub mod text;
pub mod model;
pub mod keys;
pub mod mouse;
pub mod instruction_utils;
pub mod config;
pub mod loop_control;
pub mod runner;
pub mod editor;
