//! The debugger's decision core: what state a debug command leaves the
//! session in and what the host must do next. The host performs the I/O —
//! running frames, sending responses — and hands every command here.

use crate::gui::DebugCommandQueries;
use vstd::prelude::*;

verus! {

/// What the host has to carry out after a command was taken in.
#[derive(PartialEq, Eq, Structural, Debug)]
pub enum DebugAction {
    /// Run this many frames and publish the last one.
    RunFrames(usize),
    /// Execute one instruction byte handed in by the debugger.
    RunInstruction(u8),
    /// Send the registers snapshot.
    SendRegisters,
    /// Send the bytes at the next instruction addresses.
    SendNextInstructions,
    /// Send the step-mode acknowledgment.
    SendStepMode,
    /// Send the watched addresses with their current values.
    SendWatchedAddresses,
}

/// The session state a debugger builds up: step mode, how many upcoming
/// instruction bytes to report, and the watched addresses in the order they
/// were added.
pub struct DebuggerState {
    pub is_step_mode: bool,
    pub nb_next_instruction: u8,
    pub watched_addresses: Vec<u16>,
}

impl DebuggerState {
    pub fn new() -> (r: DebuggerState)
        ensures
            !r.is_step_mode,
            r.nb_next_instruction == 0,
            r.watched_addresses@ == Seq::<u16>::empty(),
    {
        DebuggerState { is_step_mode: false, nb_next_instruction: 0, watched_addresses: Vec::new() }
    }

    /// Watch `addr`, or stop watching it: an address not yet on the list is
    /// appended, one already there leaves at its first occurrence.
    pub fn toggle_watch(&mut self, addr: u16)
        ensures
            final(self).is_step_mode == old(self).is_step_mode,
            final(self).nb_next_instruction == old(self).nb_next_instruction,
            !old(self).watched_addresses@.contains(addr) ==> final(self).watched_addresses@
                == old(self).watched_addresses@.push(addr),
            old(self).watched_addresses@.contains(addr) ==> exists|i: int|
                {
                    &&& 0 <= i < old(self).watched_addresses@.len()
                    &&& old(self).watched_addresses@[i] == addr
                    &&& (forall|j: int| 0 <= j < i ==> old(self).watched_addresses@[j] != addr)
                    &&& final(self).watched_addresses@ == old(self).watched_addresses@.remove(i)
                },
    {
        let mut i: usize = 0;
        while i < self.watched_addresses.len()
            invariant
                i <= self.watched_addresses.len(),
                *self == *old(self),
                forall|j: int| 0 <= j < i ==> old(self).watched_addresses@[j] != addr,
            decreases self.watched_addresses.len() - i,
        {
            if self.watched_addresses[i] == addr {
                self.watched_addresses.remove(i);
                return;
            }
            i += 1;
        }
        self.watched_addresses.push(addr);
    }

    /// Take one command in: update the session state and say what the host
    /// must do. Every command is answered.
    pub fn handle_command(&mut self, command: &DebugCommandQueries) -> (action: DebugAction)
        ensures
            match *command {
                DebugCommandQueries::SetStepMode => {
                    &&& final(self).is_step_mode == !old(self).is_step_mode
                    &&& final(self).nb_next_instruction == old(self).nb_next_instruction
                    &&& final(self).watched_addresses@ == old(self).watched_addresses@
                    &&& action == DebugAction::SendStepMode
                },
                DebugCommandQueries::ExecuteInstruction(byte) => {
                    &&& *final(self) == *old(self)
                    &&& action == DebugAction::RunInstruction(byte)
                },
                DebugCommandQueries::ExecuteNextInstructions(n) => {
                    &&& *final(self) == *old(self)
                    &&& action == DebugAction::RunFrames(n)
                },
                DebugCommandQueries::GetNextInstructions(n) => {
                    &&& final(self).nb_next_instruction == n
                    &&& final(self).is_step_mode == old(self).is_step_mode
                    &&& final(self).watched_addresses@ == old(self).watched_addresses@
                    &&& action == DebugAction::SendNextInstructions
                },
                DebugCommandQueries::GetRegisters => {
                    &&& *final(self) == *old(self)
                    &&& action == DebugAction::SendRegisters
                },
                DebugCommandQueries::WatchAddress(_) => action
                    == DebugAction::SendWatchedAddresses,
                DebugCommandQueries::GetAddresses => {
                    &&& *final(self) == *old(self)
                    &&& action == DebugAction::SendWatchedAddresses
                },
            },
            ({
                let toggled = match *command {
                    DebugCommandQueries::WatchAddress(addr) => Some(addr),
                    _ => Option::<u16>::None,
                };
                toggled is Some ==> {
                    let addr = toggled->0;
                    &&& final(self).is_step_mode == old(self).is_step_mode
                    &&& final(self).nb_next_instruction == old(self).nb_next_instruction
                    &&& (!old(self).watched_addresses@.contains(addr) ==> final(self)
                        .watched_addresses@ == old(self).watched_addresses@.push(addr))
                    &&& (old(self).watched_addresses@.contains(addr) ==> final(self)
                        .watched_addresses@.len() == old(self).watched_addresses@.len() - 1)
                }
            }),
    {
        match command {
            DebugCommandQueries::SetStepMode => {
                self.is_step_mode = !self.is_step_mode;
                DebugAction::SendStepMode
            },
            DebugCommandQueries::ExecuteInstruction(byte) => DebugAction::RunInstruction(*byte),
            DebugCommandQueries::ExecuteNextInstructions(n) => DebugAction::RunFrames(*n),
            DebugCommandQueries::GetNextInstructions(n) => {
                self.nb_next_instruction = *n;
                DebugAction::SendNextInstructions
            },
            DebugCommandQueries::GetRegisters => DebugAction::SendRegisters,
            DebugCommandQueries::WatchAddress(addr) => {
                self.toggle_watch(*addr);
                DebugAction::SendWatchedAddresses
            },
            DebugCommandQueries::GetAddresses => DebugAction::SendWatchedAddresses,
        }
    }
}

impl Default for DebuggerState {
    fn default() -> (r: DebuggerState)
        ensures
            !r.is_step_mode,
            r.nb_next_instruction == 0,
            r.watched_addresses@ == Seq::<u16>::empty(),
    {
        DebuggerState::new()
    }
}

} // verus!
