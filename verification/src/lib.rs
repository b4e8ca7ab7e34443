//! Hardware-interface layer for a handheld console cartridge: typed access to
//! the fixed physical address map, the 4-bits-per-pixel tile memory model, the
//! hardware sprite-descriptor encoding with its per-frame slot allocator, and
//! the build-time compiler that re-tiles an indexed-color bitmap into the
//! hardware's packed native format.

pub mod input;
pub mod mmio;
pub mod allocator;
pub mod compiler;
pub mod dictionary;
pub mod rand;
pub mod spritesheet;
pub mod tiles;
pub mod utils;
pub mod video;
