//! The hardware-defined descriptor for one interrupt-table slot.
//!
//! A gate is the fixed-layout value the CPU's table walk reads: the handler
//! address split across three offset fields, the code-segment selector, a
//! type/attribute byte, and reserved fields fixed at zero. Any deviation from
//! this layout is undefined hardware behavior, so the encoding is pinned down
//! bit for bit.

use vstd::prelude::*;

verus! {

/// Type/attribute byte of a slot with no handler: interrupt-gate type bits,
/// present bit clear.
pub const GATE_TYPE_ABSENT: u8 = 0x0e;

/// Type/attribute byte of a slot bound to a handler: interrupt-gate type
/// bits, present bit set.
pub const GATE_TYPE_INTERRUPT: u8 = 0x8e;

/// Mask of the present bit within the type/attribute byte.
pub const GATE_PRESENT_BIT: u8 = 0x80;

/// One 64-bit interrupt-table entry, laid out exactly as the CPU expects it:
/// 16 bytes, fields in declaration order, each little-endian.
#[derive(Clone, Copy, Debug, PartialEq, Eq, Structural)]
pub struct Gate64 {
    /// Bits 0 - 15 of the handler address.
    pub offset_lower: u16,
    /// Code-segment selector the CPU loads before entering the handler.
    pub selector: u16,
    /// Always zero.
    pub zero: u8,
    /// Gate type and attributes; bit 7 is the present bit.
    pub type_attr: u8,
    /// Bits 16 - 31 of the handler address.
    pub offset_mid: u16,
    /// Bits 32 - 63 of the handler address.
    pub offset_upper: u32,
    /// Reserved, always zero.
    pub reserved: u32,
}

impl Gate64 {
    /// The safe filler gate: every field zero but the type/attribute byte,
    /// whose present bit is clear.
    pub open spec fn spec_absent() -> Gate64 {
        Gate64 {
            offset_lower: 0,
            selector: 0,
            zero: 0,
            type_attr: GATE_TYPE_ABSENT,
            offset_mid: 0,
            offset_upper: 0,
            reserved: 0,
        }
    }

    /// A gate bound to a handler entry point: address split low/mid/high,
    /// the given selector, present interrupt-gate attributes.
    pub open spec fn spec_from_handler(handler: u64, selector: u16) -> Gate64 {
        Gate64 {
            offset_lower: (handler & 0xffff) as u16,
            selector: selector,
            zero: 0,
            type_attr: GATE_TYPE_INTERRUPT,
            offset_mid: ((handler >> 16) & 0xffff) as u16,
            offset_upper: (handler >> 32) as u32,
            reserved: 0,
        }
    }

    /// The handler address a table walk would read back: the three offset
    /// fields recombined per the 64-bit layout.
    pub open spec fn spec_handler_addr(self) -> u64 {
        (self.offset_lower as u64) | ((self.offset_mid as u64) << 16) | ((self.offset_upper
            as u64) << 32)
    }

    /// Whether the present bit of the type/attribute byte is set.
    pub open spec fn spec_present(self) -> bool {
        self.type_attr & GATE_PRESENT_BIT == GATE_PRESENT_BIT
    }

    /// The 16-byte in-memory image of a gate, little-endian field by field.
    pub open spec fn spec_bytes(self) -> Seq<u8> {
        seq![
            (self.offset_lower & 0xff) as u8,
            ((self.offset_lower >> 8) & 0xff) as u8,
            (self.selector & 0xff) as u8,
            ((self.selector >> 8) & 0xff) as u8,
            self.zero,
            self.type_attr,
            (self.offset_mid & 0xff) as u8,
            ((self.offset_mid >> 8) & 0xff) as u8,
            (self.offset_upper & 0xff) as u8,
            ((self.offset_upper >> 8) & 0xff) as u8,
            ((self.offset_upper >> 16) & 0xff) as u8,
            ((self.offset_upper >> 24) & 0xff) as u8,
            (self.reserved & 0xff) as u8,
            ((self.reserved >> 8) & 0xff) as u8,
            ((self.reserved >> 16) & 0xff) as u8,
            ((self.reserved >> 24) & 0xff) as u8,
        ]
    }

    /// Builds the absent gate that seeds every slot of a fresh table.
    pub fn absent() -> (g: Gate64)
        ensures
            g == Gate64::spec_absent(),
    {
        Gate64 {
            offset_lower: 0,
            selector: 0,
            zero: 0,
            type_attr: GATE_TYPE_ABSENT,
            offset_mid: 0,
            offset_upper: 0,
            reserved: 0,
        }
    }

    /// Builds a handler gate for one entry point and the current kernel
    /// code-segment selector. No error path: the caller supplies a valid,
    /// resident entry point.
    pub fn from_handler(handler: u64, selector: u16) -> (g: Gate64)
        ensures
            g == Gate64::spec_from_handler(handler, selector),
    {
        proof {
            assert((handler & 0xffff) < 0x10000) by (bit_vector);
            assert(((handler >> 16) & 0xffff) < 0x10000) by (bit_vector);
            assert((handler >> 32) < 0x1_0000_0000) by (bit_vector);
        }
        let low: u16 = (handler & 0xffff) as u16;
        let mid: u16 = ((handler >> 16) & 0xffff) as u16;
        let high: u32 = (handler >> 32) as u32;
        Gate64 {
            offset_lower: low,
            selector,
            zero: 0,
            type_attr: GATE_TYPE_INTERRUPT,
            offset_mid: mid,
            offset_upper: high,
            reserved: 0,
        }
    }

    /// Recombines this gate's offset fields into the handler address.
    pub fn handler_addr(&self) -> (addr: u64)
        ensures
            addr == self.spec_handler_addr(),
    {
        (self.offset_lower as u64) | ((self.offset_mid as u64) << 16) | ((self.offset_upper
            as u64) << 32)
    }

    /// Whether this gate is marked present.
    pub fn is_present(&self) -> (p: bool)
        ensures
            p == self.spec_present(),
    {
        self.type_attr & GATE_PRESENT_BIT == GATE_PRESENT_BIT
    }

    /// Serializes this gate to the exact 16 bytes the table stores in memory.
    pub fn to_bytes(&self) -> (b: Vec<u8>)
        ensures
            b@ == self.spec_bytes(),
    {
        proof {
            lemma_byte_masks();
        }
        let mut b: Vec<u8> = Vec::new();
        b.push((self.offset_lower & 0xff) as u8);
        b.push(((self.offset_lower >> 8) & 0xff) as u8);
        b.push((self.selector & 0xff) as u8);
        b.push(((self.selector >> 8) & 0xff) as u8);
        b.push(self.zero);
        b.push(self.type_attr);
        b.push((self.offset_mid & 0xff) as u8);
        b.push(((self.offset_mid >> 8) & 0xff) as u8);
        b.push((self.offset_upper & 0xff) as u8);
        b.push(((self.offset_upper >> 8) & 0xff) as u8);
        b.push(((self.offset_upper >> 16) & 0xff) as u8);
        b.push(((self.offset_upper >> 24) & 0xff) as u8);
        b.push((self.reserved & 0xff) as u8);
        b.push(((self.reserved >> 8) & 0xff) as u8);
        b.push(((self.reserved >> 16) & 0xff) as u8);
        b.push(((self.reserved >> 24) & 0xff) as u8);
        proof {
            assert(b@ =~= self.spec_bytes());
        }
        b
    }
}

/// Every byte extracted by mask-and-shift fits in eight bits.
proof fn lemma_byte_masks()
    by (bit_vector)
    ensures
        forall|x: u16| #[trigger] (x & 0xff) < 0x100,
        forall|x: u16| #[trigger] ((x >> 8) & 0xff) < 0x100,
        forall|x: u32| #[trigger] (x & 0xff) < 0x100,
        forall|x: u32| #[trigger] ((x >> 8) & 0xff) < 0x100,
        forall|x: u32| #[trigger] ((x >> 16) & 0xff) < 0x100,
        forall|x: u32| #[trigger] ((x >> 24) & 0xff) < 0x100,
{
}

/// Law: encoding a handler address across the three offset fields and
/// recombining them per the 64-bit layout reconstructs the address exactly.
pub proof fn lemma_from_handler_round_trip(handler: u64, selector: u16)
    ensures
        Gate64::spec_from_handler(handler, selector).spec_handler_addr() == handler,
{
    assert((((handler & 0xffff) as u16) as u64) | (((((handler >> 16) & 0xffff) as u16)
        as u64) << 16) | ((((handler >> 32) as u32) as u64) << 32) == handler) by (bit_vector);
}

/// Law: the absent gate decodes as absent — zero handler address and present
/// bit clear.
pub proof fn lemma_absent_decodes_absent()
    ensures
        Gate64::spec_absent().spec_handler_addr() == 0,
        !Gate64::spec_absent().spec_present(),
{
    assert(((0u16 as u64) | ((0u16 as u64) << 16) | ((0u32 as u64) << 32)) == 0) by (bit_vector);
    assert(GATE_TYPE_ABSENT & GATE_PRESENT_BIT != GATE_PRESENT_BIT) by (bit_vector);
}

/// Law: gate construction is deterministic — two gates built from the same
/// handler address and the same selector are equal and have byte-identical
/// encodings, with no dependence on call order or other state.
pub proof fn lemma_from_handler_deterministic(g1: Gate64, g2: Gate64, handler: u64, selector: u16)
    requires
        g1 == Gate64::spec_from_handler(handler, selector),
        g2 == Gate64::spec_from_handler(handler, selector),
    ensures
        g1 == g2,
        g1.spec_bytes() == g2.spec_bytes(),
{
}

} // verus!
