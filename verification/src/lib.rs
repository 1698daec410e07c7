//! A terminal radio with an oscilloscope: the sample decoding, buffer tuning,
//! scope geometry and interface state machine, all in integer arithmetic.
//!
//! Amplitudes, scales and plot coordinates are fixed-point integers; the units
//! are the constants of [`fixed`].

pub mod fixed;
pub mod format;
pub mod input;
pub mod progress;
pub mod text;
pub mod music;
pub mod cfg;
pub mod display;
pub mod event;
pub mod oscilloscope;
pub mod db;
pub mod player;
pub mod state;
pub mod control;
pub mod theme;
pub mod ui;
pub mod file;
pub mod search;
