//! Reusable-buffer read strategies with a wrapping byte checksum.
//!
//! A run reads the same small file many times into one buffer that is
//! allocated once. Six strategies differ in how they bring the bytes into the
//! buffer; each reports the file's length and a checksum of the bytes read.
//! The file itself is handed in as plain values: the length that its metadata
//! declares, and the bytes that reading it from the start delivers.

pub mod checksum;
pub mod decimal;
pub mod report;
pub mod buffer;
pub mod strategy;
pub mod driver;
pub mod cli;
pub mod laws;
