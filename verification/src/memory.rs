//! Flat memory backends: the banked bus and the bank-less map.

pub mod bus;
pub mod mapping_memory;
pub mod region;

pub use bus::MemoryBus;
pub use mapping_memory::Memory;
