//! Identification of display devices from their EDID block.

pub mod error;
pub mod logging;
pub mod monitor;
pub mod text;
