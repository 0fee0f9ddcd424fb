//! The audio processing unit's channels: two pulse channels, the triangle channel and
//! the noise channel, with the units they share.
pub mod common;
pub mod noise;
pub mod pulse;
pub mod triangle;
