use vstd::prelude::*;
use crate::gdt::{PrivilegeLevel, SegmentSelector};

verus! {

/// Gate type of a 32-bit interrupt gate.
pub const INTERRUPT_GATE: u8 = 0xE;
/// Number of vectors in the table.
pub const VECTOR_COUNT: usize = 256;

/// The type/attribute byte: present bit, privilege, gate type.
pub open spec fn type_attr(present: bool, dpl: u8) -> u64 {
    (if present { 0x80u64 } else { 0u64 }) | ((dpl as u64) << 5u64) | (INTERRUPT_GATE as u64)
}

/// The architectural 8-byte gate, as a little-endian 64-bit value:
/// offset[0:16), selector, a zero byte, type/attribute byte, offset[16:32).
pub open spec fn encode_idt(offset: u32, selector: u16, present: bool, dpl: u8) -> u64 {
    ((offset as u64) & 0xFFFF) | ((selector as u64) << 16u64) | (type_attr(present, dpl) << 40u64)
        | (((offset as u64) >> 16u64) << 48u64)
}

pub open spec fn decode_offset(raw: u64) -> u32 {
    ((raw & 0xFFFF) | ((raw >> 48u64) << 16u64)) as u32
}

pub open spec fn decode_selector(raw: u64) -> u16 {
    ((raw >> 16u64) & 0xFFFF) as u16
}

pub open spec fn decode_gate_present(raw: u64) -> bool {
    (raw >> 47u64) & 1 == 1
}

pub open spec fn decode_gate_dpl(raw: u64) -> u8 {
    ((raw >> 45u64) & 3) as u8
}

pub open spec fn decode_gate_type(raw: u64) -> u8 {
    ((raw >> 40u64) & 0xF) as u8
}

/// Decoding an encoded gate gives back its target, selector, presence and
/// privilege, and the interrupt-gate type.
pub proof fn lemma_idt_round_trip(offset: u32, selector: u16, present: bool, dpl: u8)
    requires
        dpl < 4,
    ensures
        decode_offset(encode_idt(offset, selector, present, dpl)) == offset,
        decode_selector(encode_idt(offset, selector, present, dpl)) == selector,
        decode_gate_present(encode_idt(offset, selector, present, dpl)) == present,
        decode_gate_dpl(encode_idt(offset, selector, present, dpl)) == dpl,
        decode_gate_type(encode_idt(offset, selector, present, dpl)) == INTERRUPT_GATE,
{
    let o = offset as u64;
    let s = selector as u64;
    let d = dpl as u64;
    let pb: u64 = if present { 0x80u64 } else { 0u64 };
    let ta = type_attr(present, dpl);
    let raw = encode_idt(offset, selector, present, dpl);
    assert(ta == pb | (d << 5u64) | 0xEu64);
    assert(ta < 0x100 && (ta >> 5u64) & 3 == d && ta & 0xF == 0xE && (ta >> 7u64) & 1 == pb
        >> 7u64) by (bit_vector)
        requires
            ta == pb | (d << 5u64) | 0xEu64,
            pb == 0x80u64 || pb == 0u64,
            d < 4,
    ;
    assert((0x80u64 >> 7u64) == 1 && (0u64 >> 7u64) == 0) by (bit_vector);
    assert((raw & 0xFFFF) | ((raw >> 48u64) << 16u64) == o && (raw >> 16u64) & 0xFFFF == s && (raw
        >> 40u64) & 0xF == ta & 0xF && (raw >> 45u64) & 3 == (ta >> 5u64) & 3 && (raw >> 47u64) & 1
        == (ta >> 7u64) & 1) by (bit_vector)
        requires
            raw == (o & 0xFFFF) | (s << 16u64) | (ta << 40u64) | ((o >> 16u64) << 48u64),
            o < 0x1_0000_0000,
            s < 0x10000,
            ta < 0x100,
    ;
}

/// One interrupt gate.
#[derive(Clone, Copy, Debug, PartialEq, Eq, Structural)]
pub struct IdtEntry {
    pub raw: u64,
}

impl IdtEntry {
    /// A 32-bit interrupt gate to `offset` in the segment `selector`.
    pub fn new(offset: u32, selector: SegmentSelector, dpl: PrivilegeLevel, present: bool) -> (r:
        IdtEntry)
        ensures
            r.raw == encode_idt(offset, selector@, present, dpl@),
            r.offset() == offset,
            r.selector() == selector@,
            r.present() == present,
            r.dpl() == dpl@,
            r.gate_type() == INTERRUPT_GATE,
    {
        let d: u8 = dpl.level();
        let pb: u64 = if present {
            0x80u64
        } else {
            0u64
        };
        let ta: u64 = pb | ((d as u64) << 5u64) | (INTERRUPT_GATE as u64);
        let o: u64 = offset as u64;
        let raw: u64 = (o & 0xFFFF) | ((selector.0 as u64) << 16u64) | (ta << 40u64) | ((o >> 16u64)
            << 48u64);
        proof {
            lemma_idt_round_trip(offset, selector@, present, d);
        }
        IdtEntry { raw }
    }

    pub open spec fn offset(self) -> u32 {
        decode_offset(self.raw)
    }

    pub open spec fn selector(self) -> u16 {
        decode_selector(self.raw)
    }

    pub open spec fn present(self) -> bool {
        decode_gate_present(self.raw)
    }

    pub open spec fn dpl(self) -> u8 {
        decode_gate_dpl(self.raw)
    }

    pub open spec fn gate_type(self) -> u8 {
        decode_gate_type(self.raw)
    }

    pub fn get_offset(self) -> (r: u32)
        ensures
            r == self.offset(),
    {
        ((self.raw & 0xFFFF) | ((self.raw >> 48u64) << 16u64)) as u32
    }

    pub fn get_selector(self) -> (r: u16)
        ensures
            r == self.selector(),
    {
        ((self.raw >> 16u64) & 0xFFFF) as u16
    }

    pub fn is_present(self) -> (r: bool)
        ensures
            r == self.present(),
    {
        (self.raw >> 47u64) & 1 == 1
    }
}

/// The full table: vector `v` is a present ring-0 gate to `handlers[v]` in
/// the code segment `code`.
pub fn build_idt(handlers: &Vec<u32>, code: SegmentSelector) -> (r: Vec<IdtEntry>)
    requires
        handlers@.len() == VECTOR_COUNT,
    ensures
        r@.len() == VECTOR_COUNT,
        forall|v: int|
            0 <= v < VECTOR_COUNT ==> r@[v].raw == encode_idt(handlers@[v], code@, true, 0)
                && r@[v].offset() == handlers@[v] && r@[v].selector() == code@ && r@[v].present()
                && r@[v].dpl() == 0 && r@[v].gate_type() == INTERRUPT_GATE,
{
    let mut t: Vec<IdtEntry> = Vec::new();
    let mut v: usize = 0;
    while v < VECTOR_COUNT
        invariant
            v <= VECTOR_COUNT,
            handlers@.len() == VECTOR_COUNT,
            t@.len() == v,
            forall|u: int|
                0 <= u < v ==> t@[u].raw == encode_idt(handlers@[u], code@, true, 0)
                    && t@[u].offset() == handlers@[u] && t@[u].selector() == code@
                    && t@[u].present() && t@[u].dpl() == 0 && t@[u].gate_type() == INTERRUPT_GATE,
        decreases VECTOR_COUNT - v,
    {
        t.push(IdtEntry::new(handlers[v], code, PrivilegeLevel::Ring0, true));
        v = v + 1;
    }
    t
}

} // verus!
