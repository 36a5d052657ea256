//! The opcode table entries: name, timing, length and what each
//! instruction does to the flags.
use vstd::prelude::*;

use std::collections::HashMap;

verus! {

/// What an instruction does to one flag.
#[derive(Debug, Clone, Copy, PartialEq, Eq, Structural)]
pub enum FlagAction {
    SetFlag,
    Unset,
    Depend,
    Ignore,
}

/// One entry of the opcode table. The timings are without and with a
/// branch taken; `flags_to_action` is keyed by the flag's bit mask in F.
#[derive(Debug)]
pub struct OpCode {
    pub value: u8,
    pub name: String,
    pub tcycles: (u8, u8),
    pub mcycles: (u8, u8),
    pub length: u8,
    pub flags_to_action: HashMap<u8, FlagAction>,
}

impl OpCode {
    pub fn new(
        value: u8,
        name: String,
        tcycles: (u8, u8),
        mcycles: (u8, u8),
        length: u8,
        flags_to_action: HashMap<u8, FlagAction>,
    ) -> (r: OpCode)
        ensures
            r.value == value,
            r.name@ == name@,
            r.tcycles == tcycles,
            r.mcycles == mcycles,
            r.length == length,
            r.flags_to_action@ == flags_to_action@,
    {
        OpCode { value, name, tcycles, mcycles, length, flags_to_action }
    }
}

} // verus!
