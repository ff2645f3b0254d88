//! A verified execution core for the CHIP-8 instruction-set architecture:
//! instruction decode, per-opcode semantics with exact overflow, borrow,
//! shift and collision flag behavior, and a timing model that decouples
//! the configurable instruction rate from the fixed 60 Hz timer tick and
//! from blocking key-wait suspension. Every public operation carries a
//! contract over the machine's mathematical view, and the properties the
//! architecture promises are proved in `laws`.

pub mod decode;
pub mod emulator;
pub mod errors;
pub mod laws;
pub mod model;
pub mod quirks;
pub mod timing;
pub mod types;
