//! Verified logic of a collection of ESP32 sensor and display gadgets:
//! seven-segment displays, a motion-triggered LED strip, a buzzer that plays
//! notes, and an MQTT temperature/humidity reporter.

pub mod digits;
pub mod lighting;
pub mod pir;
pub mod text;
pub mod mqtt;
pub mod gpio;
pub mod notes;
pub mod segment_display;
pub mod colors;
pub mod motion_detection;
pub mod wifi;
