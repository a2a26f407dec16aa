use vstd::prelude::*;

verus! {

/// Diagnostic port used for the short delay after controller programming.
pub const DELAY_PORT: u16 = 0x80;

/// One port-mapped transfer, as the processor's `in`/`out` instructions perform it.
#[derive(Clone, Copy, Debug, PartialEq, Eq, Structural)]
#[allow(inconsistent_fields)]
pub enum PortOp {
    In8 { port: u16 },
    Out8 { port: u16, value: u8 },
    In16 { port: u16 },
    Out16 { port: u16, value: u16 },
    In32 { port: u16 },
    Out32 { port: u16, value: u32 },
}

/// A capability for one 16-bit I/O address; it carries no other state.
#[derive(Clone, Copy, Debug, PartialEq, Eq, Structural, PartialOrd, Ord)]
pub struct Port(pub u16);

impl View for Port {
    type V = u16;

    open spec fn view(&self) -> u16 {
        self.0
    }
}

/// The byte writes of `bytes` to `port`, one transfer per byte, in order.
pub open spec fn out8_all(port: u16, bytes: Seq<u8>) -> Seq<PortOp> {
    Seq::new(bytes.len(), |i: int| PortOp::Out8 { port, value: bytes[i] })
}

/// `n` byte reads from `port`.
pub open spec fn in8_n(port: u16, n: nat) -> Seq<PortOp> {
    Seq::new(n, |i: int| PortOp::In8 { port })
}

impl Port {
    pub fn new(number: u16) -> (r: Port)
        ensures
            r@ == number,
    {
        Port(number)
    }

    pub fn number(self) -> (r: u16)
        ensures
            r == self@,
    {
        self.0
    }

    pub fn in8(self) -> (r: PortOp)
        ensures
            r == (PortOp::In8 { port: self@ }),
    {
        PortOp::In8 { port: self.0 }
    }

    pub fn out8(self, num: u8) -> (r: PortOp)
        ensures
            r == (PortOp::Out8 { port: self@, value: num }),
    {
        PortOp::Out8 { port: self.0, value: num }
    }

    pub fn in16(self) -> (r: PortOp)
        ensures
            r == (PortOp::In16 { port: self@ }),
    {
        PortOp::In16 { port: self.0 }
    }

    pub fn out16(self, num: u16) -> (r: PortOp)
        ensures
            r == (PortOp::Out16 { port: self@, value: num }),
    {
        PortOp::Out16 { port: self.0, value: num }
    }

    pub fn in32(self) -> (r: PortOp)
        ensures
            r == (PortOp::In32 { port: self@ }),
    {
        PortOp::In32 { port: self.0 }
    }

    pub fn out32(self, num: u32) -> (r: PortOp)
        ensures
            r == (PortOp::Out32 { port: self@, value: num }),
    {
        PortOp::Out32 { port: self.0, value: num }
    }

    /// The fixed delay: a throwaway zero byte to the diagnostic port.
    pub fn io_wait() -> (r: PortOp)
        ensures
            r == (PortOp::Out8 { port: DELAY_PORT, value: 0 }),
    {
        Port::new(DELAY_PORT).out8(0)
    }

    /// A single-unit read: one byte transfer when `buf_len` is positive, none
    /// otherwise. The count of bytes it will fill is the length of the result.
    pub fn read(self, buf_len: usize) -> (r: Vec<PortOp>)
        ensures
            r@ == in8_n(self@, if buf_len == 0 { 0 } else { 1 }),
    {
        let mut ops: Vec<PortOp> = Vec::new();
        if buf_len > 0 {
            ops.push(self.in8());
        }
        proof {
            assert(ops@ =~= in8_n(self@, if buf_len == 0 { 0 } else { 1 }));
        }
        ops
    }

    /// One byte read per element of a buffer of `buf_len` bytes.
    pub fn read_all(self, buf_len: usize) -> (r: Vec<PortOp>)
        ensures
            r@ == in8_n(self@, buf_len as nat),
    {
        let mut ops: Vec<PortOp> = Vec::new();
        let mut i: usize = 0;
        while i < buf_len
            invariant
                i <= buf_len,
                ops@ =~= in8_n(self@, i as nat),
            decreases buf_len - i,
        {
            ops.push(self.in8());
            i = i + 1;
            proof {
                assert(ops@ =~= in8_n(self@, i as nat));
            }
        }
        ops
    }

    /// A single-unit write: the first byte of `buf`, if there is one.
    pub fn write(self, buf: &[u8]) -> (r: Vec<PortOp>)
        ensures
            r@ == out8_all(self@, buf@.take(if buf@.len() == 0 { 0 } else { 1 })),
    {
        let mut ops: Vec<PortOp> = Vec::new();
        if buf.len() > 0 {
            ops.push(self.out8(buf[0]));
        }
        proof {
            assert(ops@ =~= out8_all(self@, buf@.take(if buf@.len() == 0 { 0 } else { 1 })));
        }
        ops
    }

    /// Every byte of `buf`, in order, one transfer each.
    pub fn write_all(self, buf: &[u8]) -> (r: Vec<PortOp>)
        ensures
            r@ == out8_all(self@, buf@),
    {
        let mut ops: Vec<PortOp> = Vec::new();
        let mut i: usize = 0;
        while i < buf.len()
            invariant
                i <= buf@.len(),
                ops@ =~= out8_all(self@, buf@.take(i as int)),
            decreases buf@.len() - i,
        {
            ops.push(self.out8(buf[i]));
            i = i + 1;
            proof {
                assert(ops@ =~= out8_all(self@, buf@.take(i as int)));
            }
        }
        proof {
            assert(buf@.take(i as int) =~= buf@);
        }
        ops
    }
}

} // verus!
