//! A small persistence helper: uniform save/load of named records and of
//! singleton configuration values, one TOML file per value, under a
//! caller-resolved data directory.
//!
//! The library holds the pure logic of the store: path composition,
//! directory-name resolution, file selection by extension, the decoding
//! pipeline of a bulk load, and the decision a singleton load takes when its
//! file is missing. The surrounding process performs the file reads and
//! writes and feeds their results back in as plain values.

pub mod pathname;
pub mod record;
pub mod settings;
pub mod singleton;
pub mod store;
