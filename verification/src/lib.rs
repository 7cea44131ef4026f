//! A verified core for a small 2D tile-based exploration game.
//!
//! The library covers the tile-map ingestion and coordinate-mapping pipeline
//! together with the per-frame collision and interaction systems: converting
//! the map document's top-left, row-major coordinates into the renderer's
//! center-origin, bottom-up world space; materializing tile and object layers;
//! extracting axis-aligned collision footprints; resolving player movement
//! against those footprints; and the inventory-gated portal state machine.
//!
//! World coordinates are modeled as exact integers (world units). Decoding the
//! raw map bytes and all engine work (rendering, input polling, asset I/O)
//! live outside this crate; the library receives plain values and decides.

pub mod collision;
pub mod coords;
pub mod frame;
pub mod inventory;
pub mod materialize;
pub mod model;
pub mod movement;
pub mod tags;
