//! Simulation utilities: the decisions of the interactive plot window.
//!
//! The plot window runs one frame at a time; what each frame does (close the
//! window, show a legend, label each line) is decided here from the window's
//! input and the series it shows, and proved against its contract.

pub mod plot;
