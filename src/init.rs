use vstd::prelude::*;
use crate::gdt::{
    build_gdt, encode_gdt, GdtEntry, PrivilegeLevel, SegmentSelector, CODE_ACCESS, CODE_INDEX,
    DATA_ACCESS, DATA_INDEX, FLAT_LIMIT,
};
use crate::idt::{build_idt, encode_idt, IdtEntry, INTERRUPT_GATE, VECTOR_COUNT};
use crate::pic::{remap_sequence, PIC};
use crate::port::PortOp;

verus! {

/// First vector of the master controller's lines after remapping.
pub const MASTER_OFFSET: u8 = 0x20;
/// First vector of the slave controller's lines after remapping.
pub const SLAVE_OFFSET: u8 = 0x28;

/// A segment register.
#[derive(Clone, Copy, Debug, PartialEq, Eq, Structural)]
pub enum SegmentRegister {
    Cs,
    Ds,
    Es,
    Fs,
    Gs,
    Ss,
}

/// One step of bring-up, in the order the processor must see them.
#[derive(Clone, Copy, Debug, PartialEq, Eq, Structural)]
pub enum InitStep {
    /// Load the segment descriptor table (`BringUp::gdt`).
    LoadGdt,
    /// Load a segment register; the code segment through a far transfer.
    SetSegment { register: SegmentRegister, selector: SegmentSelector },
    /// Perform a port transfer.
    Io { op: PortOp },
    /// Load the interrupt descriptor table (`BringUp::idt`).
    LoadIdt,
}

/// What bring-up loads, and the steps that load it.
pub struct BringUp {
    /// The segment table that `LoadGdt` loads.
    pub gdt: Vec<GdtEntry>,
    /// The interrupt table that `LoadIdt` loads.
    pub idt: Vec<IdtEntry>,
    /// The steps, in order.
    pub steps: Vec<InitStep>,
}

pub open spec fn io_steps(ops: Seq<PortOp>) -> Seq<InitStep> {
    ops.map_values(|op: PortOp| InitStep::Io { op })
}

/// The code selector (index 1, ring 0) and the data selector (index 2, ring 0).
pub open spec fn code_selector() -> SegmentSelector {
    SegmentSelector((CODE_INDEX * 8) as u16)
}

pub open spec fn data_selector() -> SegmentSelector {
    SegmentSelector((DATA_INDEX * 8) as u16)
}

/// Bring-up: the segment table, every segment register (the data registers,
/// then the code segment last, since loading it switches execution), both controllers remapped clear of the exception vectors,
/// and the interrupt table last. Interrupts stay disabled throughout.
pub open spec fn init_sequence() -> Seq<InitStep> {
    seq![
        InitStep::LoadGdt,
        InitStep::SetSegment { register: SegmentRegister::Ds, selector: data_selector() },
        InitStep::SetSegment { register: SegmentRegister::Es, selector: data_selector() },
        InitStep::SetSegment { register: SegmentRegister::Fs, selector: data_selector() },
        InitStep::SetSegment { register: SegmentRegister::Gs, selector: data_selector() },
        InitStep::SetSegment { register: SegmentRegister::Ss, selector: data_selector() },
        InitStep::SetSegment { register: SegmentRegister::Cs, selector: code_selector() },
    ] + io_steps(remap_sequence(PIC::master_spec(), MASTER_OFFSET)) + io_steps(
        remap_sequence(PIC::slave_spec(), SLAVE_OFFSET),
    ) + seq![InitStep::LoadIdt]
}

fn push_io(steps: &mut Vec<InitStep>, ops: &Vec<PortOp>)
    ensures
        final(steps)@ == old(steps)@ + io_steps(ops@),
{
    let mut i: usize = 0;
    while i < ops.len()
        invariant
            i <= ops@.len(),
            steps@ == old(steps)@ + io_steps(ops@.take(i as int)),
        decreases ops@.len() - i,
    {
        steps.push(InitStep::Io { op: ops[i] });
        i = i + 1;
        proof {
            assert(io_steps(ops@.take(i as int)) =~= io_steps(ops@.take(i - 1 as int)).push(
                InitStep::Io { op: ops@[i - 1] },
            ));
            assert(steps@ =~= old(steps)@ + io_steps(ops@.take(i as int)));
        }
    }
    proof {
        assert(ops@.take(i as int) =~= ops@);
    }
}

/// The one-shot bring-up plan. `handlers[v]` is the address of the entry
/// stub of vector `v`. The segment table is the flat three-entry table; the
/// interrupt table has a present ring-0 interrupt gate in the code segment
/// for every vector, each aimed at that vector's own stub.
pub fn init(handlers: &Vec<u32>) -> (r: BringUp)
    requires
        handlers@.len() == VECTOR_COUNT,
    ensures
        r.steps@ == init_sequence(),
        r.gdt@.len() == 3,
        r.gdt@[0].raw == 0,
        r.gdt@[1].raw == encode_gdt(0, FLAT_LIMIT, CODE_ACCESS, 0),
        r.gdt@[2].raw == encode_gdt(0, FLAT_LIMIT, DATA_ACCESS, 0),
        forall|i: int|
            1 <= i < 3 ==> r.gdt@[i].base() == 0 && r.gdt@[i].limit() == FLAT_LIMIT
                && r.gdt@[i].dpl() == 0 && r.gdt@[i].present(),
        r.gdt@[1].access() == CODE_ACCESS,
        r.gdt@[2].access() == DATA_ACCESS,
        r.idt@.len() == VECTOR_COUNT,
        forall|v: int|
            0 <= v < VECTOR_COUNT ==> r.idt@[v].raw == encode_idt(
                handlers@[v],
                code_selector()@,
                true,
                0,
            ) && r.idt@[v].offset() == handlers@[v] && r.idt@[v].selector() == code_selector()@
                && r.idt@[v].present() && r.idt@[v].dpl() == 0 && r.idt@[v].gate_type()
                == INTERRUPT_GATE,
{
    let cs = SegmentSelector::new(CODE_INDEX, PrivilegeLevel::Ring0);
    let ds = SegmentSelector::new(DATA_INDEX, PrivilegeLevel::Ring0);
    let gdt = build_gdt();
    let idt = build_idt(handlers, cs);
    let mut steps: Vec<InitStep> = Vec::new();
    steps.push(InitStep::LoadGdt);
    steps.push(InitStep::SetSegment { register: SegmentRegister::Ds, selector: ds });
    steps.push(InitStep::SetSegment { register: SegmentRegister::Es, selector: ds });
    steps.push(InitStep::SetSegment { register: SegmentRegister::Fs, selector: ds });
    steps.push(InitStep::SetSegment { register: SegmentRegister::Gs, selector: ds });
    steps.push(InitStep::SetSegment { register: SegmentRegister::Ss, selector: ds });
    steps.push(InitStep::SetSegment { register: SegmentRegister::Cs, selector: cs });
    let master = PIC::master();
    let slave = PIC::slave();
    let m = master.remap_to(MASTER_OFFSET);
    push_io(&mut steps, &m);
    let s = slave.remap_to(SLAVE_OFFSET);
    push_io(&mut steps, &s);
    steps.push(InitStep::LoadIdt);
    proof {
        assert(steps@ =~= init_sequence());
    }
    BringUp { gdt, idt, steps }
}

} // verus!
