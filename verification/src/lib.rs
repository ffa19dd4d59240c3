//! The memory of a hand-held console: a cartridge image checked against its
//! header, and the bus that maps 16-bit addresses onto the cartridge.
pub mod bus;
pub mod cartridge;
pub mod cpu;
