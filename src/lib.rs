//! Bridges the peppi replay parser to a Python host: takes a parsed Slippi or
//! peppi replay, shapes its frames into one Arrow struct column named
//! `frames`, and renders the start, end and metadata records as JSON texts.
pub mod bridge;
pub mod error;
pub mod game;
pub mod handover;
pub mod occupancy;
