//! The kernel's single interrupt-table instance and its lifecycle.
//!
//! The table goes through three phases: unconfigured (all slots absent,
//! nothing loaded), configured (handler gates installed), and active (the CPU
//! told where the table lives, the interrupt controller initialized, delivery
//! enabled — in that exact order). Activation is irreversible, and gates may
//! only be installed before it: once delivery is enabled the table is
//! read-only, which is what lets dispatch run without ever taking the lock
//! that guards configuration.

use vstd::prelude::*;

use crate::gate::Gate64;
use crate::idt::IDT_ENTRIES;
use crate::idt::Idt64;

verus! {

/// Where the table stands in its configure-then-activate lifecycle.
#[derive(Clone, Copy, Debug, PartialEq, Eq, Structural)]
pub enum Phase {
    /// All slots absent; nothing loaded.
    Unconfigured,
    /// Handler gates installed; not yet handed to the CPU.
    Configured,
    /// Loaded, controller initialized, delivery enabled. Final.
    Active,
}

/// One privileged step of activation. The hardware hand-off these stand for
/// has no error channel, so correctness is a precondition established by
/// construction: every slot holds at least an absent gate before loading.
#[derive(Clone, Copy, Debug, PartialEq, Eq, Structural)]
pub enum ActivationStep {
    /// Tell the CPU where the table lives and how large it is.
    LoadTable,
    /// Initialize the interrupt controller.
    InitController,
    /// Enable interrupt delivery at the CPU.
    EnableInterrupts,
}

/// The global interrupt state: the one table instance plus its phase.
/// Created at kernel start, populated once during initialization, never
/// destroyed.
pub struct KernelInterruptState {
    idt: Idt64,
    phase: Phase,
}

impl KernelInterruptState {
    /// The current lifecycle phase.
    pub closed spec fn spec_phase(self) -> Phase {
        self.phase
    }

    /// The gates of the owned table.
    pub closed spec fn table(self) -> Seq<Gate64> {
        self.idt@
    }

    /// Well-formed: the table has all of its slots.
    pub closed spec fn wf(self) -> bool {
        self.idt.wf()
    }

    /// Kernel start: an all-absent table that nothing has loaded yet.
    pub fn new() -> (s: KernelInterruptState)
        ensures
            s.wf(),
            s.spec_phase() == Phase::Unconfigured,
            forall|i: int| 0 <= i < IDT_ENTRIES ==> s.table()[i] == Gate64::spec_absent(),
    {
        KernelInterruptState { idt: Idt64::new(), phase: Phase::Unconfigured }
    }

    /// Installs one handler gate. Configuration only: callers hold the lock
    /// and the table must not be active yet, since dispatch reads it without
    /// locking once delivery is enabled.
    pub fn add_gate(&mut self, index: usize, handler: u64, selector: u16)
        requires
            old(self).wf(),
            index < IDT_ENTRIES,
            old(self).spec_phase() != Phase::Active,
        ensures
            final(self).wf(),
            final(self).spec_phase() == Phase::Configured,
            final(self).table() == old(self).table().update(
                index as int,
                Gate64::spec_from_handler(handler, selector),
            ),
    {
        self.idt.add_gate(index, handler, selector);
        self.phase = Phase::Configured;
    }

    /// Bulk population from a boot-provided handler table, one entry per
    /// interrupt number: every slot with an entry point gets its handler
    /// gate, slots without one are left untouched. Configuration only, like
    /// `add_gate`.
    pub fn add_gates(&mut self, handlers: &[Option<u64>], selector: u16)
        requires
            old(self).wf(),
            old(self).spec_phase() != Phase::Active,
            handlers@.len() == IDT_ENTRIES,
        ensures
            final(self).wf(),
            final(self).spec_phase() == Phase::Configured,
            forall|i: int|
                0 <= i < IDT_ENTRIES ==> final(self).table()[i] == (match handlers@[i] {
                    Some(h) => Gate64::spec_from_handler(h, selector),
                    None => old(self).table()[i],
                }),
    {
        self.phase = Phase::Configured;
        let mut i: usize = 0;
        while i < IDT_ENTRIES
            invariant
                i <= IDT_ENTRIES,
                old(self).wf(),
                self.wf(),
                self.spec_phase() == Phase::Configured,
                handlers@.len() == IDT_ENTRIES,
                forall|j: int|
                    0 <= j < i ==> self.table()[j] == (match handlers@[j] {
                        Some(h) => Gate64::spec_from_handler(h, selector),
                        None => old(self).table()[j],
                    }),
                forall|j: int| i <= j < IDT_ENTRIES ==> self.table()[j] == old(self).table()[j],
            decreases IDT_ENTRIES - i,
        {
            let ghost prev = self.table();
            match handlers[i] {
                Some(entry_point) => self.idt.add_gate(i, entry_point, selector),
                None => (),
            }
            proof {
                assert(forall|j: int| 0 <= j < IDT_ENTRIES && j != i ==> self.table()[j] == prev[j]);
                assert(self.table()[i as int] == (match handlers@[i as int] {
                    Some(h) => Gate64::spec_from_handler(h, selector),
                    None => old(self).table()[i as int],
                }));
            }
            i = i + 1;
        }
    }

    /// The activation decision: marks the state active and yields the
    /// privileged steps to perform, in the exact order the hand-off protocol
    /// requires — load the table, then initialize the controller, then enable
    /// delivery. Reversing that order risks an interrupt arriving before the
    /// table is live. There is no transition back.
    pub fn initialize(&mut self) -> (steps: Vec<ActivationStep>)
        requires
            old(self).wf(),
            old(self).spec_phase() != Phase::Active,
        ensures
            final(self).wf(),
            final(self).spec_phase() == Phase::Active,
            final(self).table() == old(self).table(),
            steps@ == seq![
                ActivationStep::LoadTable,
                ActivationStep::InitController,
                ActivationStep::EnableInterrupts,
            ],
    {
        self.phase = Phase::Active;
        let mut steps: Vec<ActivationStep> = Vec::new();
        steps.push(ActivationStep::LoadTable);
        steps.push(ActivationStep::InitController);
        steps.push(ActivationStep::EnableInterrupts);
        proof {
            assert(steps@ =~= seq![
                ActivationStep::LoadTable,
                ActivationStep::InitController,
                ActivationStep::EnableInterrupts,
            ]);
        }
        steps
    }

    /// The slot contents at `index`: whichever gate is currently installed.
    pub fn gate(&self, index: usize) -> (g: Gate64)
        requires
            self.wf(),
            index < IDT_ENTRIES,
        ensures
            g == self.table()[index as int],
    {
        self.idt.gate(index)
    }

    /// The current phase, for callers that must check it before configuring.
    pub fn phase(&self) -> (p: Phase)
        ensures
            p == self.spec_phase(),
    {
        self.phase
    }

    /// The owned table, for the privileged loader.
    pub fn idt(&self) -> (t: &Idt64)
        ensures
            t@ == self.table(),
            t.wf() == self.wf(),
    {
        &self.idt
    }
}

} // verus!
