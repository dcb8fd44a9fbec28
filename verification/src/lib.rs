//! Core of a COSMIC panel applet that shows how much of two usage budgets is spent.
//!
//! The library holds the applet's decisions that rest on time stamps, text and
//! settings: staleness, reset countdowns and their wording, which budgets are
//! shown and how, the settings dropdowns, the popup state machine, settings
//! changes, and the framing of the usage history into candidate records. The
//! budget fractions and colours (floating point), the widgets, the file watch
//! and the JSON decoding of a record live in the application crate around it.

pub mod applet;
pub mod config;
pub mod indicator;
pub mod settings;
pub mod text;
pub mod usage;
pub mod view;
