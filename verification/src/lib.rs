//! Decision and text logic of a terminal dashboard for aurora monitoring.
//!
//! The terminal client polls a backend for geomagnetic data and draws it.
//! This crate holds what that client decides: which part of a timestamp is
//! shown, which tone a reading is drawn in, which entries of a series are
//! picked, how fetched replies become the dashboard's data, and what a key
//! press does.

pub mod text;
pub mod tone;
pub mod series;
pub mod control;
pub mod fetch;
pub mod view;


