//! Core logic of a quick-capture note utility: locale resolution,
//! translated labels, window placement, the save-directory choice,
//! note file naming, and the decisions of the session coordinator.

pub mod config;
pub mod locale;
pub mod notes;
pub mod placement;
pub mod session;
pub mod translations;
