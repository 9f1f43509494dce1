//! Register offsets (relative to the controller base) and register bit layouts.
pub mod dma;
pub mod mac;
pub mod mtl;
