use x86_core::gdt::{
    build_gdt, GdtEntry, PrivilegeLevel, SegmentSelector, ACCESS_EXECUTABLE, ACCESS_NOT_TSS,
    ACCESS_WRITABLE, FLAT_LIMIT,
};
use x86_core::idt::{build_idt, IdtEntry, VECTOR_COUNT};

const RINGS: [PrivilegeLevel; 4] = [
    PrivilegeLevel::Ring0,
    PrivilegeLevel::Ring1,
    PrivilegeLevel::Ring2,
    PrivilegeLevel::Ring3,
];

#[test]
fn selector_is_index_times_eight_plus_privilege() {
    for i in 0u16..3 {
        for (p, ring) in RINGS.iter().enumerate() {
            let s = SegmentSelector::new(i, *ring);
            assert_eq!(s.0, i * 8 + p as u16);
        }
    }
}

#[test]
fn code_and_data_selectors() {
    assert_eq!(SegmentSelector::new(1, PrivilegeLevel::Ring0).0, 0x08);
    assert_eq!(SegmentSelector::new(2, PrivilegeLevel::Ring0).0, 0x10);
    assert_eq!(SegmentSelector::new(8191, PrivilegeLevel::Ring3).0, 0xFFFB);
}

#[test]
fn flat_gdt_has_exact_encoding() {
    let t = build_gdt();
    assert_eq!(t.len(), 3);
    assert_eq!(t[0].raw, 0);
    assert_eq!(t[1].raw, 0x00CF_9A00_0000_FFFF);
    assert_eq!(t[2].raw, 0x00CF_9200_0000_FFFF);
}

#[test]
fn flat_gdt_round_trips() {
    let t = build_gdt();
    for e in &t[1..] {
        assert_eq!(e.get_base(), 0);
        assert_eq!(e.get_limit(), 0xFFFF_FFFF);
        assert_eq!(e.get_dpl(), 0);
        assert!(e.is_present());
    }
    assert_eq!(t[1].get_access(), ACCESS_EXECUTABLE | ACCESS_WRITABLE | ACCESS_NOT_TSS);
    assert_eq!(t[2].get_access(), ACCESS_WRITABLE | ACCESS_NOT_TSS);
    assert!(!t[0].is_present());
}

#[test]
fn byte_granular_descriptor_round_trips() {
    let e = GdtEntry::new(0x1234_5678, 0xABCDE, ACCESS_WRITABLE | ACCESS_NOT_TSS, PrivilegeLevel::Ring3);
    assert_eq!(e.raw, 0x124A_F234_5678_BCDE);
    assert_eq!(e.get_base(), 0x1234_5678);
    assert_eq!(e.get_limit(), 0xABCDE);
    assert_eq!(e.get_access(), 0x12);
    assert_eq!(e.get_dpl(), 3);
    assert!(e.is_present());
}

#[test]
fn page_granular_limit_edges() {
    let largest_bytes = GdtEntry::new(0, 0xFFFFF, ACCESS_NOT_TSS, PrivilegeLevel::Ring0);
    assert_eq!(largest_bytes.get_limit(), 0xFFFFF);
    let pages = GdtEntry::new(0, 0x1F_FFFF, ACCESS_NOT_TSS, PrivilegeLevel::Ring0);
    assert_eq!(pages.get_limit(), 0x1F_FFFF);
    let flat = GdtEntry::new(0xFFFF_FFFF, FLAT_LIMIT, ACCESS_NOT_TSS, PrivilegeLevel::Ring2);
    assert_eq!(flat.get_base(), 0xFFFF_FFFF);
    assert_eq!(flat.get_limit(), FLAT_LIMIT);
    assert_eq!(flat.get_dpl(), 2);
}

#[test]
fn interrupt_gate_encoding() {
    let sel = SegmentSelector::new(1, PrivilegeLevel::Ring0);
    let g = IdtEntry::new(0x1234_5678, sel, PrivilegeLevel::Ring0, true);
    assert_eq!(g.raw, 0x1234_8E00_0008_5678);
    assert_eq!(g.get_offset(), 0x1234_5678);
    assert_eq!(g.get_selector(), 0x08);
    assert!(g.is_present());
    let absent = IdtEntry::new(0x1234_5678, sel, PrivilegeLevel::Ring3, false);
    assert_eq!(absent.raw, 0x1234_6E00_0008_5678);
    assert!(!absent.is_present());
}

#[test]
fn every_vector_gets_one_present_gate() {
    let handlers: Vec<u32> = (0..256u32).map(|v| 0x0010_0000 + v * 16).collect();
    let sel = SegmentSelector::new(1, PrivilegeLevel::Ring0);
    let t = build_idt(&handlers, sel);
    assert_eq!(t.len(), VECTOR_COUNT);
    for (v, g) in t.iter().enumerate() {
        assert!(g.is_present());
        assert_eq!(g.get_offset(), 0x0010_0000 + v as u32 * 16);
        assert_eq!(g.get_selector(), 0x08);
    }
}
