//! Verified core of the Plutonium controller launcher: manifest model,
//! content hashing, HTML patching, the update session state machine and the
//! controller input decisions.

pub mod controller;
pub mod hashing;
pub mod launcher;
pub mod manifest;
pub mod patch;
pub mod text;
pub mod updater;
