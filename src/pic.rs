use vstd::prelude::*;
use crate::port::{Port, PortOp, out8_all};

verus! {

/// Initialisation command word 1: edge triggered, cascaded, ICW4 follows.
pub const ICW1: u8 = 0x11;
/// Initialisation command word 4: 8086/88 mode.
pub const ICW4: u8 = 0x01;
/// Initial interrupt mask: every line enabled.
pub const ENABLE_ALL: u8 = 0x00;
/// End-of-interrupt command.
pub const EOI: u8 = 0x20;
/// Cascade identity of the master: a slave sits on IRQ2.
pub const MASTER_CASCADE: u8 = 0x02;
/// Cascade identity of the slave: it is IRQ2 of the master.
pub const SLAVE_CASCADE: u8 = 0x04;
pub const MASTER_CONTROL: u16 = 0x20;
pub const MASTER_DATA: u16 = 0x21;
pub const SLAVE_CONTROL: u16 = 0xA0;
pub const SLAVE_DATA: u16 = 0xA1;

/// One 8259-compatible interrupt controller.
#[derive(Clone, Copy, Debug, PartialEq, Eq, Structural)]
pub struct PIC {
    pub control_port: Port,
    pub mask_port: Port,
    pub is_master: bool,
}

/// The cascade identity byte of a controller.
pub open spec fn cascade_byte(is_master: bool) -> u8 {
    if is_master {
        MASTER_CASCADE
    } else {
        SLAVE_CASCADE
    }
}

/// The remap protocol: ICW1 to the control port, then the vector offset, the
/// cascade identity, ICW4 and the mask to the data port.
pub open spec fn remap_sequence(pic: PIC, start: u8) -> Seq<PortOp> {
    seq![PortOp::Out8 { port: pic.control_port@, value: ICW1 }] + out8_all(
        pic.mask_port@,
        seq![start, cascade_byte(pic.is_master), ICW4, ENABLE_ALL],
    )
}

impl PIC {
    pub open spec fn master_spec() -> PIC {
        PIC { control_port: Port(MASTER_CONTROL), mask_port: Port(MASTER_DATA), is_master: true }
    }

    pub open spec fn slave_spec() -> PIC {
        PIC { control_port: Port(SLAVE_CONTROL), mask_port: Port(SLAVE_DATA), is_master: false }
    }

    pub fn master() -> (r: PIC)
        ensures
            r == PIC::master_spec(),
            r.control_port@ == MASTER_CONTROL,
            r.mask_port@ == MASTER_DATA,
            r.is_master,
    {
        PIC { control_port: Port::new(MASTER_CONTROL), mask_port: Port::new(MASTER_DATA), is_master: true }
    }

    pub fn slave() -> (r: PIC)
        ensures
            r.control_port@ == SLAVE_CONTROL,
            r.mask_port@ == SLAVE_DATA,
            r == PIC::slave_spec(),
            !r.is_master,
    {
        PIC { control_port: Port::new(SLAVE_CONTROL), mask_port: Port::new(SLAVE_DATA), is_master: false }
    }

    /// The writes that move this controller's interrupt lines to vectors
    /// `start ..= start + 7`.
    pub fn remap_to(&self, start: u8) -> (r: Vec<PortOp>)
        ensures
            r@ == remap_sequence(*self, start),
    {
        let typ: u8 = if self.is_master {
            MASTER_CASCADE
        } else {
            SLAVE_CASCADE
        };
        let mut ops: Vec<PortOp> = Vec::new();
        ops.push(self.control_port.out8(ICW1));
        let data: [u8; 4] = [start, typ, ICW4, ENABLE_ALL];
        let mut rest = self.mask_port.write_all(&data);
        ops.append(&mut rest);
        proof {
            assert(data@ =~= seq![start, cascade_byte(self.is_master), ICW4, ENABLE_ALL]);
            assert(ops@ =~= remap_sequence(*self, start));
        }
        ops
    }
}

/// End of interrupt for a line of the master controller. Only the master is
/// acknowledged: lines of the slave get no end of interrupt here.
pub fn acknowledge_irq(_vector: u32) -> (r: PortOp)
    ensures
        r == (PortOp::Out8 { port: MASTER_CONTROL, value: EOI }),
{
    PIC::master().control_port.out8(EOI)
}

} // verus!
