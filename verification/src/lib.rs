//! Performance control for ASUS laptops: the decisions behind fan, thermal,
//! keyboard-backlight and battery-limit control, verified.

pub mod cli;
pub mod driver;
pub mod error;
pub mod laws;
pub mod operations;
pub mod text;
