//! A polling telemetry widget for a status bar: it samples the system memory
//! counters on a fixed interval and emits exactly one formatted display line
//! per tick.
//!
//! The widget's data lives in plain values: a [`widget::MemorySnapshot`]
//! mirrors the operating system's counters in bytes, [`units`] renders byte
//! counts in adjusted binary units to one decimal digit, and [`tier`]
//! classifies a used/total ratio against the fixed one-half and four-fifths
//! thresholds. The live counter handle itself stays behind the trusted
//! declarations in [`source`]; everything computed from its values is
//! verified for every value they may take.

pub mod source;
pub mod tier;
pub mod units;
pub mod widget;
