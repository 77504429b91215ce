//! The host's run state, which also carries the trace settings handed to the machine.
use vstd::prelude::*;

verus! {

#[derive(Debug)]
pub struct ProgramState {
    /// Trace each instruction before it runs.
    pub debug: bool,
    pub done: bool,
    pub paused: bool,
    /// Run one frame while paused.
    pub adv_frame: bool,
    /// Include the registers in the trace.
    pub debug_regs: bool,
    /// Frames run for each frame shown.
    pub speed: u64,
}

impl ProgramState {
    pub fn new() -> (r: ProgramState)
        ensures
            !r.debug && !r.done && !r.paused && !r.adv_frame && !r.debug_regs,
            r.speed == 1,
    {
        ProgramState {
            debug: false,
            done: false,
            paused: false,
            adv_frame: false,
            debug_regs: false,
            speed: 1,
        }
    }
}

} // verus!
