//! Builds the `WIFI:` payload that phone cameras read to join a network,
//! and renders it as a PNG or SVG QR code.

pub mod text;

pub mod escape;
pub mod schema;
pub mod image;
