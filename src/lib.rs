//! Type-safe pin and ADC abstraction for 8-bit AVR microcontrollers.
//!
//! Pins carry their electrical mode in their type; the ADC controller is
//! generic over a chip description that fixes register layouts, reference
//! options and multiplexer codes.

pub mod adc;
pub mod attiny167;
pub mod attiny402;
pub mod attiny85;
pub mod attiny88;
pub mod bits;
pub mod channel;
pub mod port;
