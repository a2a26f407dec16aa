use x86_core::dispatch::{
    diagnostic, handle_interrupt, handler_kind, title, vector_text, HandlerKind, HandlerStep,
};
use x86_core::port::PortOp;

const TITLES: [(u8, &str); 15] = [
    (0x00, "Divide by zero"),
    (0x01, "Debug"),
    (0x02, "Non-maskable Interrupt"),
    (0x03, "Breakpoint"),
    (0x04, "Overflow"),
    (0x05, "Bound Range Exceeded"),
    (0x06, "Invalid Opcode"),
    (0x07, "Device Not Available"),
    (0x08, "Double Fault"),
    (0x0a, "Invalid TSS"),
    (0x0b, "Segment Not Present"),
    (0x0c, "Stack-Segment Fault"),
    (0x0d, "General Protection Fault"),
    (0x0e, "Page Fault"),
    (0x10, "x87 Floating Point Exception"),
];

#[test]
fn reserved_vectors_have_their_titles() {
    for v in 0u8..0x20 {
        let expected = TITLES.iter().find(|(n, _)| *n == v).map(|(_, t)| *t);
        assert_eq!(title(v), expected);
    }
    for v in 0x20u8..=0xFF {
        assert_eq!(title(v), None);
    }
}

#[test]
fn every_vector_has_exactly_one_kind() {
    let mut counts = [0usize; 4];
    for v in 0u8..=0xFF {
        let k = handler_kind(v);
        let i = match k {
            HandlerKind::Exception => 0,
            HandlerKind::Timer => 1,
            HandlerKind::Keyboard => 2,
            HandlerKind::Unhandled => 3,
        };
        counts[i] += 1;
    }
    assert_eq!(counts, [15, 1, 1, 239]);
}

#[test]
fn vector_numbers_in_hex() {
    assert_eq!(vector_text(0x00), "0x00");
    assert_eq!(vector_text(0x0e), "0x0e");
    assert_eq!(vector_text(0xab), "0xab");
    assert_eq!(vector_text(0xff), "0xff");
}

#[test]
fn page_fault_halts_with_title_and_vector() {
    let steps = handle_interrupt(0x0e);
    assert_eq!(steps.len(), 1);
    match &steps[0] {
        HandlerStep::Halt { message } => {
            assert!(message.contains("Page Fault"));
            assert!(message.contains("0x0e"));
            assert_eq!(message, "Exception 0x0e: Page Fault");
        }
        other => panic!("unexpected step {:?}", other),
    }
}

#[test]
fn every_named_exception_halts_with_its_title() {
    for (v, t) in TITLES {
        assert_eq!(diagnostic(v), Some(format!("Exception {:#04x}: {}", v, t)));
    }
}

#[test]
fn unassigned_vector_halts_naming_it() {
    let steps = handle_interrupt(0x09);
    assert_eq!(steps.len(), 1);
    match &steps[0] {
        HandlerStep::Halt { message } => {
            assert_eq!(message, "interrupt with no handler: 0x09");
            assert!(!message.contains("Exception"));
        }
        other => panic!("unexpected step {:?}", other),
    }
    assert_eq!(diagnostic(0xff), Some(String::from("interrupt with no handler: 0xff")));
    assert_eq!(diagnostic(0x0f), Some(String::from("interrupt with no handler: 0x0f")));
    assert_eq!(diagnostic(0x15), Some(String::from("interrupt with no handler: 0x15")));
}

#[test]
fn keyboard_notifies_then_acknowledges_once() {
    let steps = handle_interrupt(0x21);
    assert_eq!(steps.len(), 2);
    assert!(matches!(steps[0], HandlerStep::NotifyKeyboard));
    match &steps[1] {
        HandlerStep::Io { op } => assert_eq!(*op, PortOp::Out8 { port: 0x20, value: 0x20 }),
        other => panic!("unexpected step {:?}", other),
    }
}

#[test]
fn timer_does_nothing() {
    assert!(handle_interrupt(0x20).is_empty());
    assert_eq!(diagnostic(0x20), None);
    assert_eq!(diagnostic(0x21), None);
}

#[test]
fn software_test_vector_halts_as_unhandled() {
    let steps = handle_interrupt(0x15);
    assert_eq!(steps.len(), 1);
    assert!(matches!(&steps[0], HandlerStep::Halt { message } if message == "interrupt with no handler: 0x15"));
}

#[test]
fn every_halting_report_names_its_vector() {
    let mut halting = 0;
    for v in 0u8..=0xFF {
        if let Some(d) = diagnostic(v) {
            halting += 1;
            assert!(d.contains(&format!("{:#04x}", v)));
            match title(v) {
                Some(t) => assert!(d.contains(t)),
                None => assert_eq!(d, format!("interrupt with no handler: {:#04x}", v)),
            }
        }
    }
    assert_eq!(halting, 254);
}
