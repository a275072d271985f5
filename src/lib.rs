//! An SD card block device over SPI, written as a sans-IO protocol engine.
//!
//! The engine decides what goes on the bus and how the card's answers are
//! read; whoever owns the SPI transport performs the bus operations it asks
//! for and hands the bytes that came back to it.
pub mod board;
pub mod bus;
pub mod codec;
pub mod command;
pub mod error;
pub mod lcd;
pub mod sdcard;
pub mod theorems;
