//! The state handed to the dispatcher for one interrupt.
//!
//! The entry stub saves the CPU registers, then lays down the interrupt id
//! and the hardware error code before calling into dispatch. The record here
//! mirrors that layout, padding words included, so field offsets stay stable;
//! the dispatcher only ever reads it.

use vstd::prelude::*;

verus! {

/// The callee-saved general-purpose registers the entry stub preserves, in
/// its fixed save order. Pure data: no invariants, no behavior.
#[derive(Clone, Copy, Debug, PartialEq, Eq, Structural)]
pub struct Registers {
    pub rbx: u64,
    pub rbp: u64,
    pub r12: u64,
    pub r13: u64,
    pub r14: u64,
    pub r15: u64,
}

/// Saved registers plus the numeric interrupt id and the optional hardware
/// error code (meaningful only for a subset of CPU exceptions). Immutable
/// from the dispatcher's side: it reflects hardware state that has already
/// happened.
#[derive(Clone, Copy, Debug, PartialEq, Eq, Structural)]
pub struct InterruptCtx64 {
    registers: Registers,
    int_id: u32,
    pad_1: u32,
    err_no: u32,
    pad_2: u32,
}

impl InterruptCtx64 {
    /// The saved register snapshot.
    pub closed spec fn spec_registers(self) -> Registers {
        self.registers
    }

    /// The numeric interrupt id the hardware delivered.
    pub closed spec fn spec_int_id(self) -> u32 {
        self.int_id
    }

    /// The hardware error code, where the exception pushes one.
    pub closed spec fn spec_err_no(self) -> u32 {
        self.err_no
    }

    /// Builds the record the entry stub lays down before invoking dispatch;
    /// the padding words are fixed at zero.
    pub fn new(registers: Registers, int_id: u32, err_no: u32) -> (ctx: InterruptCtx64)
        ensures
            ctx.spec_registers() == registers,
            ctx.spec_int_id() == int_id,
            ctx.spec_err_no() == err_no,
    {
        InterruptCtx64 { registers, int_id, pad_1: 0, err_no, pad_2: 0 }
    }

    /// Read-only access to the saved registers.
    pub fn registers(&self) -> (r: Registers)
        ensures
            r == self.spec_registers(),
    {
        self.registers
    }

    /// Read-only access to the interrupt id.
    pub fn int_id(&self) -> (id: u32)
        ensures
            id == self.spec_int_id(),
    {
        self.int_id
    }

    /// Read-only access to the error code.
    pub fn err_no(&self) -> (e: u32)
        ensures
            e == self.spec_err_no(),
    {
        self.err_no
    }
}

} // verus!
