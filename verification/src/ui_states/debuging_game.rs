//! The debugger screen's message vocabulary, with the debug-mode toggle the
//! screen adds on top of the core's commands.

use vstd::prelude::*;

verus! {

pub enum DebugCommandQueries {
    SetDebugMode,
    SetStepMode,
    ExecuteInstruction(u8),
    ExecuteNextInstructions(usize),
    GetNextInstructions(u8),
    GetRegisters,
    WatchAddress(u16),
    GetAddresses,
}

pub enum DebugResponse {
    DebugModeSet(bool),
    StepModeSet(bool),
    InstructionsExecuted(usize),
    NextInstructions(Vec<u16>),
    AddressesWatched(WatchedAdresses),
    Registers(u8, u8, u8, u8, u8, u8, u8, u16, u16),
}

/// The watched addresses with the values last sampled at them.
pub struct WatchedAdresses {
    pub addresses_n_values: Vec<(u16, u16)>,
}

} // verus!
