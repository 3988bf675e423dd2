//! The message vocabulary between the emulator core and a debugger front
//! end: typed commands in, typed responses out, over bounded queues.

use vstd::prelude::*;

verus! {

/// Commands a debugger can send; each is answered with a response.
pub enum DebugCommandQueries {
    SetStepMode,
    ExecuteInstruction(u8),
    ExecuteNextInstructions(usize),
    GetNextInstructions(u8),
    GetRegisters,
    WatchAddress(u16),
    GetAddresses,
}

/// Responses the core sends back.
pub enum DebugResponse {
    StepModeSet(bool),
    InstructionsExecuted(usize),
    NextInstructions(Vec<u16>),
    AddressesWatched(WatchedAdresses),
    Registers(u8, u8, u8, u8, u8, u8, u8, u16, u16),
}

/// The watched addresses with the values last sampled at them.
pub struct WatchedAdresses {
    pub addresses_n_values: Vec<(u16, u16)>,
}

/// The state behind the ROM-selection screen.
pub struct SelectionDevice {}

/// The state behind the starting hub screen.
pub struct StartingHubDevice {}

} // verus!
