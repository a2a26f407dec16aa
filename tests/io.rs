use x86_core::init::{init, InitStep, SegmentRegister};
use x86_core::gdt::SegmentSelector;
use x86_core::pic::{acknowledge_irq, PIC};
use x86_core::port::{Port, PortOp};

fn out8(port: u16, value: u8) -> PortOp {
    PortOp::Out8 { port, value }
}

#[test]
fn port_single_transfers() {
    let p = Port::new(0x60);
    assert_eq!(p.number(), 0x60);
    assert_eq!(p.in8(), PortOp::In8 { port: 0x60 });
    assert_eq!(p.out8(7), out8(0x60, 7));
    assert_eq!(p.in16(), PortOp::In16 { port: 0x60 });
    assert_eq!(p.out16(0xBEEF), PortOp::Out16 { port: 0x60, value: 0xBEEF });
    assert_eq!(p.in32(), PortOp::In32 { port: 0x60 });
    assert_eq!(p.out32(0xDEAD_BEEF), PortOp::Out32 { port: 0x60, value: 0xDEAD_BEEF });
}

#[test]
fn io_wait_writes_zero_to_diagnostic_port() {
    assert_eq!(Port::io_wait(), out8(0x80, 0));
}

#[test]
fn single_unit_write_and_read() {
    let p = Port::new(0x3F8);
    assert!(p.write(&[]).is_empty());
    assert_eq!(p.write(&[1, 2, 3]), vec![out8(0x3F8, 1)]);
    assert!(p.read(0).is_empty());
    assert_eq!(p.read(5), vec![PortOp::In8 { port: 0x3F8 }]);
}

#[test]
fn bulk_write_and_read() {
    let p = Port::new(0x3F8);
    assert!(p.write_all(&[]).is_empty());
    assert_eq!(p.write_all(&[9, 8, 7]), vec![out8(0x3F8, 9), out8(0x3F8, 8), out8(0x3F8, 7)]);
    assert!(p.read_all(0).is_empty());
    assert_eq!(p.read_all(3), vec![PortOp::In8 { port: 0x3F8 }; 3]);
}

#[test]
fn master_remap_sequence() {
    let m = PIC::master();
    assert!(m.is_master);
    assert_eq!(
        m.remap_to(0x20),
        vec![out8(0x20, 0x11), out8(0x21, 0x20), out8(0x21, 0x02), out8(0x21, 0x01), out8(0x21, 0x00)]
    );
}

#[test]
fn slave_remap_sequence() {
    let s = PIC::slave();
    assert!(!s.is_master);
    assert_eq!(
        s.remap_to(0x28),
        vec![out8(0xA0, 0x11), out8(0xA1, 0x28), out8(0xA1, 0x04), out8(0xA1, 0x01), out8(0xA1, 0x00)]
    );
}

#[test]
fn acknowledge_goes_to_master_only() {
    assert_eq!(acknowledge_irq(0x21), out8(0x20, 0x20));
    assert_eq!(acknowledge_irq(0x2C), out8(0x20, 0x20));
}

#[test]
fn bring_up_order() {
    let handlers: Vec<u32> = (0..256u32).collect();
    let steps = init(&handlers).steps;
    assert_eq!(steps.len(), 18);
    assert_eq!(steps[0], InitStep::LoadGdt);
    let data = [SegmentRegister::Ds, SegmentRegister::Es, SegmentRegister::Fs, SegmentRegister::Gs, SegmentRegister::Ss];
    for (i, r) in data.iter().enumerate() {
        assert_eq!(steps[1 + i], InitStep::SetSegment { register: *r, selector: SegmentSelector(0x10) });
    }
    assert_eq!(
        steps[6],
        InitStep::SetSegment { register: SegmentRegister::Cs, selector: SegmentSelector(0x08) }
    );
    let io: Vec<PortOp> = PIC::master()
        .remap_to(0x20)
        .into_iter()
        .chain(PIC::slave().remap_to(0x28))
        .collect();
    for (i, op) in io.iter().enumerate() {
        assert_eq!(steps[7 + i], InitStep::Io { op: *op });
    }
    assert_eq!(steps[17], InitStep::LoadIdt);
}

#[test]
fn bring_up_loads_flat_gdt_and_full_idt() {
    let handlers: Vec<u32> = (0..256u32).map(|v| 0x0020_0000 + v * 32).collect();
    let plan = init(&handlers);
    let gdt: Vec<u64> = plan.gdt.iter().map(|e| e.raw).collect();
    assert_eq!(gdt, vec![0, 0x00CF_9A00_0000_FFFF, 0x00CF_9200_0000_FFFF]);
    assert_eq!(plan.idt.len(), 256);
    for (v, g) in plan.idt.iter().enumerate() {
        assert!(g.is_present());
        assert_eq!(g.get_selector(), 0x08);
        assert_eq!(g.get_offset(), 0x0020_0000 + v as u32 * 32);
    }
    assert_eq!(plan.idt[0x21].raw, 0x0020_8E00_0008_0420);
}
