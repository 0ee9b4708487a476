//! The interrupt table and the dispatch classification.
//!
//! The table is a fixed array of gates, one per representable interrupt
//! number, every slot holding at least the absent gate so a table walk never
//! reads garbage. Dispatch classifies each incoming event by its id into the
//! CPU-fault path, a known-device path, or the fatal unrecognized path, and
//! always carries the end-of-interrupt id that must be signalled to the
//! interrupt controller exactly once, whichever path ran.

use vstd::prelude::*;

use crate::context::InterruptCtx64;
use crate::gate::Gate64;
use crate::gate::lemma_absent_decodes_absent;

verus! {

/// Number of slots: one gate per representable interrupt number.
pub const IDT_ENTRIES: usize = 256;

/// Size in bytes of the in-memory table, as handed to the privileged loader.
pub const IDT_SIZE_BYTES: u16 = 16 * 256;

/// Highest interrupt id the CPU reserves for its own exceptions.
pub const CPU_EXCEPTION_LIMIT: u32 = 0x0f;

/// Interrupt id wired to the system timer.
pub const TIMER_ID: u32 = 0x20;

/// Interrupt id wired to the keyboard.
pub const KEYBOARD_ID: u32 = 0x21;

/// The path dispatch routes an event to, by its interrupt id.
#[derive(Clone, Copy, Debug, PartialEq, Eq, Structural)]
pub enum DispatchPath {
    /// A fault the CPU itself raised; fatal in the base design.
    CpuException,
    /// The system timer: an extension point; with no handler wired up the
    /// path is a harmless no-op, not an error.
    Timer,
    /// The keyboard: an extension point; with no handler wired up the path
    /// is a harmless no-op, not an error.
    Keyboard,
    /// Any other id: table corruption or controller misconfiguration, so the
    /// kernel fails loud.
    Unrecognized,
}

/// What one dispatch decided: the path that ran, whether that path halts the
/// kernel, and the id to acknowledge to the interrupt controller.
#[derive(Clone, Copy, Debug, PartialEq, Eq, Structural)]
pub struct DispatchOutcome {
    /// The path the id was classified into.
    pub path: DispatchPath,
    /// Whether the path is fatal (a CPU exception with no recovery, or an
    /// unrecognized id).
    pub fatal: bool,
    /// The end-of-interrupt id, to be signalled exactly once, on every path.
    pub eoi_id: u8,
}

/// Classification policy: CPU-reserved low ids go to the fault path, the two
/// wired device ids to their hooks, everything else is unrecognized.
pub open spec fn spec_classify(id: u32) -> DispatchPath {
    if id <= CPU_EXCEPTION_LIMIT {
        DispatchPath::CpuException
    } else if id == TIMER_ID {
        DispatchPath::Timer
    } else if id == KEYBOARD_ID {
        DispatchPath::Keyboard
    } else {
        DispatchPath::Unrecognized
    }
}

/// The paths that halt the kernel: unrecovered CPU exceptions and
/// unrecognized ids.
pub open spec fn spec_is_fatal(p: DispatchPath) -> bool {
    p == DispatchPath::CpuException || p == DispatchPath::Unrecognized
}

/// Classifies one interrupt id; total over the whole id range.
pub fn classify(id: u32) -> (p: DispatchPath)
    ensures
        p == spec_classify(id),
{
    if id <= CPU_EXCEPTION_LIMIT {
        DispatchPath::CpuException
    } else if id == TIMER_ID {
        DispatchPath::Timer
    } else if id == KEYBOARD_ID {
        DispatchPath::Keyboard
    } else {
        DispatchPath::Unrecognized
    }
}

/// Whether a path halts the kernel.
pub fn is_fatal(p: DispatchPath) -> (f: bool)
    ensures
        f == spec_is_fatal(p),
{
    match p {
        DispatchPath::CpuException => true,
        DispatchPath::Timer => false,
        DispatchPath::Keyboard => false,
        DispatchPath::Unrecognized => true,
    }
}

/// The 64-bit interrupt table: a fixed-length sequence of gates.
pub struct Idt64 {
    gates: Vec<Gate64>,
}

impl View for Idt64 {
    type V = Seq<Gate64>;

    closed spec fn view(&self) -> Seq<Gate64> {
        self.gates@
    }
}

impl Idt64 {
    /// Well-formed: all slots exist, even the unused ones.
    pub open spec fn wf(self) -> bool {
        self@.len() == IDT_ENTRIES
    }

    /// A fresh table: every slot holds the absent gate, so nothing can
    /// dispatch to garbage before setup completes.
    pub fn new() -> (t: Idt64)
        ensures
            t.wf(),
            forall|i: int| 0 <= i < IDT_ENTRIES ==> t@[i] == Gate64::spec_absent(),
    {
        let mut gates: Vec<Gate64> = Vec::new();
        let mut i: usize = 0;
        while i < IDT_ENTRIES
            invariant
                i <= IDT_ENTRIES,
                gates@.len() == i,
                forall|j: int| 0 <= j < i ==> gates@[j] == Gate64::spec_absent(),
            decreases IDT_ENTRIES - i,
        {
            gates.push(Gate64::absent());
            i = i + 1;
        }
        Idt64 { gates }
    }

    /// Installs `handler`'s gate at `index`. Out-of-range indices are a
    /// precondition violation, not a runtime error; re-installing an index
    /// silently overwrites (last write wins).
    pub fn add_gate(&mut self, index: usize, handler: u64, selector: u16)
        requires
            old(self).wf(),
            index < IDT_ENTRIES,
        ensures
            final(self).wf(),
            final(self)@ == old(self)@.update(
                index as int,
                Gate64::spec_from_handler(handler, selector),
            ),
    {
        let gate = Gate64::from_handler(handler, selector);
        self.gates.set(index, gate);
    }

    /// The slot contents at `index`: whichever gate is currently installed.
    pub fn gate(&self, index: usize) -> (g: Gate64)
        requires
            self.wf(),
            index < IDT_ENTRIES,
        ensures
            g == self@[index as int],
    {
        self.gates[index]
    }

    /// The backing slots, for the privileged loader that hands the table's
    /// location to the CPU.
    pub fn gates(&self) -> (g: &Vec<Gate64>)
        ensures
            g@ == self@,
    {
        &self.gates
    }

    /// Dispatch entry point, invoked by the low-level entry stub for every
    /// received event. Classifies the id, reports whether the path is fatal,
    /// and yields exactly one end-of-interrupt id — the delivered id,
    /// truncated to the controller's range — which the caller must signal
    /// whichever path ran. Reads nothing mutable, so it never takes the
    /// kernel state lock.
    pub fn handle_interrupt(state: &InterruptCtx64) -> (out: DispatchOutcome)
        ensures
            out.path == spec_classify(state.spec_int_id()),
            out.fatal == spec_is_fatal(out.path),
            out.eoi_id == (state.spec_int_id() & 0xff) as u8,
            state.spec_int_id() < 256 ==> out.eoi_id as u32 == state.spec_int_id(),
    {
        let id = state.int_id();
        proof {
            assert((id & 0xff) < 0x100) by (bit_vector);
            assert(id < 256 ==> (id & 0xff) == id) by (bit_vector);
        }
        let path = classify(id);
        let fatal = is_fatal(path);
        DispatchOutcome { path, fatal, eoi_id: (id & 0xff) as u8 }
    }
}

/// Law: classification is total — every representable interrupt id falls in
/// exactly one of the fault, known-device, and unrecognized paths, each
/// characterized by its id range.
pub proof fn lemma_classification_total(id: u32)
    ensures
        (spec_classify(id) == DispatchPath::CpuException) <==> id <= CPU_EXCEPTION_LIMIT,
        (spec_classify(id) == DispatchPath::Timer) <==> id == TIMER_ID,
        (spec_classify(id) == DispatchPath::Keyboard) <==> id == KEYBOARD_ID,
        (spec_classify(id) == DispatchPath::Unrecognized) <==> (id > CPU_EXCEPTION_LIMIT && id
            != TIMER_ID && id != KEYBOARD_ID),
{
}

/// Law: in an unconfigured table every slot decodes as absent — the handler
/// address reads back as zero and the present bit is clear.
pub proof fn lemma_unconfigured_table_absent(t: Idt64)
    requires
        t.wf(),
        forall|i: int| 0 <= i < IDT_ENTRIES ==> t@[i] == Gate64::spec_absent(),
    ensures
        forall|i: int|
            0 <= i < IDT_ENTRIES ==> (#[trigger] t@[i]).spec_handler_addr() == 0
                && !t@[i].spec_present(),
{
    lemma_absent_decodes_absent();
}

/// Law: after installing a handler, the slot queried back holds exactly the
/// handler's gate; installing twice at the same index leaves only the second
/// gate, as if the first install never happened (last write wins).
pub proof fn lemma_add_gate_last_write_wins(
    s: Seq<Gate64>,
    index: int,
    h1: u64,
    h2: u64,
    selector: u16,
)
    requires
        0 <= index < s.len(),
    ensures
        s.update(index, Gate64::spec_from_handler(h1, selector))[index]
            == Gate64::spec_from_handler(h1, selector),
        s.update(index, Gate64::spec_from_handler(h1, selector)).update(
            index,
            Gate64::spec_from_handler(h2, selector),
        ) =~= s.update(index, Gate64::spec_from_handler(h2, selector)),
{
}

} // verus!
