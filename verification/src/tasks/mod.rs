//! The decisions of the firmware's tasks.

pub mod button;
pub mod display;
pub mod neopixel;

pub use button::ButtonEvent;
