//! What is prepared for the hardware drivers.

pub mod neopixel;
