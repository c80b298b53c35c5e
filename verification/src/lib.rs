//! Lifecycle control for a Bluetooth Low Energy advertiser.
//!
//! The crate decides; a driver acts. [`controller::AdvertisingController`] is a
//! state machine that hands out one [`controller::RadioCommand`] at a time and is
//! told how each one went. It never touches hardware itself, so every rule of
//! the lifecycle is stated over plain values and proved.

pub mod controller;
pub mod error;
pub mod guarantees;
pub mod params;
pub mod payload;
