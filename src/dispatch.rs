use vstd::prelude::*;
use vstd::string::*;
use crate::pic::{acknowledge_irq, EOI, MASTER_CONTROL};
use crate::port::PortOp;

verus! {

/// Vector of the timer line after the master is remapped to 0x20.
pub const TIMER_VECTOR: u8 = 0x20;
/// Vector of the keyboard line after the master is remapped to 0x20.
pub const KEYBOARD_VECTOR: u8 = 0x21;

/// The title of each named processor exception.
pub open spec fn exception_title(v: u8) -> Option<Seq<char>> {
    match v {
        0x00 => Some("Divide by zero"@),
        0x01 => Some("Debug"@),
        0x02 => Some("Non-maskable Interrupt"@),
        0x03 => Some("Breakpoint"@),
        0x04 => Some("Overflow"@),
        0x05 => Some("Bound Range Exceeded"@),
        0x06 => Some("Invalid Opcode"@),
        0x07 => Some("Device Not Available"@),
        0x08 => Some("Double Fault"@),
        0x0a => Some("Invalid TSS"@),
        0x0b => Some("Segment Not Present"@),
        0x0c => Some("Stack-Segment Fault"@),
        0x0d => Some("General Protection Fault"@),
        0x0e => Some("Page Fault"@),
        0x10 => Some("x87 Floating Point Exception"@),
        _ => None,
    }
}

pub fn title(v: u8) -> (r: Option<&'static str>)
    ensures
        r is Some <==> exception_title(v) is Some,
        r is Some ==> r->0@ == exception_title(v)->0,
{
    match v {
        0x00 => Some("Divide by zero"),
        0x01 => Some("Debug"),
        0x02 => Some("Non-maskable Interrupt"),
        0x03 => Some("Breakpoint"),
        0x04 => Some("Overflow"),
        0x05 => Some("Bound Range Exceeded"),
        0x06 => Some("Invalid Opcode"),
        0x07 => Some("Device Not Available"),
        0x08 => Some("Double Fault"),
        0x0a => Some("Invalid TSS"),
        0x0b => Some("Segment Not Present"),
        0x0c => Some("Stack-Segment Fault"),
        0x0d => Some("General Protection Fault"),
        0x0e => Some("Page Fault"),
        0x10 => Some("x87 Floating Point Exception"),
        _ => None,
    }
}

/// Lower-case hexadecimal digit of `n < 16`.
pub open spec fn hex_digit(n: u8) -> char {
    match n {
        0 => '0',
        1 => '1',
        2 => '2',
        3 => '3',
        4 => '4',
        5 => '5',
        6 => '6',
        7 => '7',
        8 => '8',
        9 => '9',
        10 => 'a',
        11 => 'b',
        12 => 'c',
        13 => 'd',
        14 => 'e',
        _ => 'f',
    }
}

/// A vector number as `0x` and two lower-case digits.
pub open spec fn hex_text(v: u8) -> Seq<char> {
    seq!['0', 'x', hex_digit(v / 16), hex_digit(v % 16)]
}

fn hex_digit_str(n: u8) -> (r: &'static str)
    requires
        n < 16,
    ensures
        r@ == seq![hex_digit(n)],
{
    match n {
        0 => { proof { reveal_strlit("0"); } "0" },
        1 => { proof { reveal_strlit("1"); } "1" },
        2 => { proof { reveal_strlit("2"); } "2" },
        3 => { proof { reveal_strlit("3"); } "3" },
        4 => { proof { reveal_strlit("4"); } "4" },
        5 => { proof { reveal_strlit("5"); } "5" },
        6 => { proof { reveal_strlit("6"); } "6" },
        7 => { proof { reveal_strlit("7"); } "7" },
        8 => { proof { reveal_strlit("8"); } "8" },
        9 => { proof { reveal_strlit("9"); } "9" },
        10 => { proof { reveal_strlit("a"); } "a" },
        11 => { proof { reveal_strlit("b"); } "b" },
        12 => { proof { reveal_strlit("c"); } "c" },
        13 => { proof { reveal_strlit("d"); } "d" },
        14 => { proof { reveal_strlit("e"); } "e" },
        _ => { proof { reveal_strlit("f"); } "f" },
    }
}

/// The vector number as it appears in a diagnostic, e.g. `0x0e`.
pub fn vector_text(v: u8) -> (r: String)
    ensures
        r@ == hex_text(v),
{
    let mut s = String::from_str("0x");
    proof {
        reveal_strlit("0x");
    }
    s.append(hex_digit_str(v / 16));
    s.append(hex_digit_str(v % 16));
    proof {
        assert(s@ =~= hex_text(v));
    }
    s
}

/// Which of the handler bodies serves a vector.
#[derive(Clone, Copy, Debug, PartialEq, Eq, Structural)]
pub enum HandlerKind {
    /// A named processor exception: halt with its title.
    Exception,
    /// The timer line: nothing to do.
    Timer,
    /// The keyboard line: notify the keyboard, then acknowledge.
    Keyboard,
    /// Anything else: halt naming the vector.
    Unhandled,
}

pub open spec fn kind_of(v: u8) -> HandlerKind {
    if exception_title(v) is Some {
        HandlerKind::Exception
    } else if v == TIMER_VECTOR {
        HandlerKind::Timer
    } else if v == KEYBOARD_VECTOR {
        HandlerKind::Keyboard
    } else {
        HandlerKind::Unhandled
    }
}

pub fn handler_kind(v: u8) -> (r: HandlerKind)
    ensures
        r == kind_of(v),
{
    if title(v).is_some() {
        HandlerKind::Exception
    } else if v == TIMER_VECTOR {
        HandlerKind::Timer
    } else if v == KEYBOARD_VECTOR {
        HandlerKind::Keyboard
    } else {
        HandlerKind::Unhandled
    }
}

/// Every vector gets exactly one of three bodies: a named exception (just
/// the titled vectors, all in the reserved range 0x00–0x1F), a device body
/// (exactly the timer and keyboard vectors), or the default body that halts
/// naming the vector (every other vector).
pub proof fn lemma_every_vector_has_one_body(v: u8)
    ensures
        kind_of(v) == HandlerKind::Exception <==> exception_title(v) is Some,
        exception_title(v) is Some ==> v < 0x20,
        kind_of(v) == HandlerKind::Timer <==> v == TIMER_VECTOR,
        kind_of(v) == HandlerKind::Keyboard <==> v == KEYBOARD_VECTOR,
        kind_of(v) == HandlerKind::Unhandled <==> (exception_title(v) is None && v != TIMER_VECTOR
            && v != KEYBOARD_VECTOR),
{
}

/// The fatal report of a vector, where its handler halts:
/// `Exception 0x0e: Page Fault`, or `interrupt with no handler: 0x09`.
pub open spec fn diagnostic_text(v: u8) -> Option<Seq<char>> {
    match kind_of(v) {
        HandlerKind::Exception => Some(
            "Exception "@ + hex_text(v) + ": "@ + exception_title(v)->0,
        ),
        HandlerKind::Unhandled => Some("interrupt with no handler: "@ + hex_text(v)),
        _ => None,
    }
}

pub fn diagnostic(v: u8) -> (r: Option<String>)
    ensures
        r is Some <==> diagnostic_text(v) is Some,
        r is Some ==> r->0@ == diagnostic_text(v)->0,
{
    let kind = handler_kind(v);
    match title(v) {
        Some(t) => {
            let mut s = String::from_str("Exception ");
            let h = vector_text(v);
            s.append(h.as_str());
            s.append(": ");
            s.append(t);
            Some(s)
        },
        None => {
            if kind == HandlerKind::Unhandled {
                let mut s = String::from_str("interrupt with no handler: ");
                let h = vector_text(v);
                s.append(h.as_str());
                Some(s)
            } else {
                None
            }
        },
    }
}

/// Whether `part` occurs in `s` as a contiguous run.
pub open spec fn contains(s: Seq<char>, part: Seq<char>) -> bool {
    exists|i: int| 0 <= i <= s.len() - part.len() && #[trigger] s.subrange(i, i + part.len()) == part
}

/// Every halting report names its vector in hex; the report of a named
/// exception also holds its title, and that of any other vector holds no
/// title, only the vector.
pub proof fn lemma_diagnostic_names_vector(v: u8)
    ensures
        diagnostic_text(v) is Some ==> contains(diagnostic_text(v)->0, hex_text(v)),
        exception_title(v) is Some ==> contains(diagnostic_text(v)->0, exception_title(v)->0),
        kind_of(v) == HandlerKind::Unhandled ==> diagnostic_text(v)->0
            == "interrupt with no handler: "@ + hex_text(v),
{
    let h = hex_text(v);
    if exception_title(v) is Some {
        let a = "Exception "@;
        let t = exception_title(v)->0;
        let b = ": "@;
        let d = a + h + b + t;
        let i: int = a.len() as int;
        let j: int = i + h.len() + b.len();
        assert(d.subrange(i, i + h.len()) =~= h);
        assert(d.subrange(j, j + t.len()) =~= t);
    } else if kind_of(v) == HandlerKind::Unhandled {
        let a = "interrupt with no handler: "@;
        let d = a + h;
        let i: int = a.len() as int;
        assert(d.subrange(i, i + h.len()) =~= h);
    }
}

/// One thing a handler body does.
#[derive(Debug)]
pub enum HandlerStep {
    /// Tell the keyboard driver that its line fired.
    NotifyKeyboard,
    /// Perform a port transfer.
    Io { op: PortOp },
    /// Stop the machine after writing the report.
    Halt { message: String },
}

/// The body of the handler of vector `v`, step by step: halting vectors halt
/// with their report; the keyboard vector notifies the keyboard and then
/// sends one end of interrupt to the master; the timer vector does nothing;
/// every other vector halts with `interrupt with no handler: 0x..`.
pub fn handle_interrupt(v: u8) -> (r: Vec<HandlerStep>)
    ensures
        diagnostic_text(v) is Some ==> r@.len() == 1 && r@[0] is Halt && r@[0]->message@
            == diagnostic_text(v)->0,
        kind_of(v) == HandlerKind::Keyboard ==> r@.len() == 2 && r@[0] is NotifyKeyboard
            && r@[1] is Io && r@[1]->op == (PortOp::Out8 { port: MASTER_CONTROL, value: EOI }),
        v == TIMER_VECTOR ==> r@.len() == 0,
        exception_title(v) is None && v != TIMER_VECTOR && v != KEYBOARD_VECTOR ==> r@.len() == 1
            && r@[0] is Halt && r@[0]->message@ == "interrupt with no handler: "@ + hex_text(v),
{
    let mut steps: Vec<HandlerStep> = Vec::new();
    match handler_kind(v) {
        HandlerKind::Keyboard => {
            steps.push(HandlerStep::NotifyKeyboard);
            steps.push(HandlerStep::Io { op: acknowledge_irq(v as u32) });
        },
        HandlerKind::Timer => {},
        HandlerKind::Exception | HandlerKind::Unhandled => {
            match diagnostic(v) {
                Some(message) => steps.push(HandlerStep::Halt { message }),
                None => {},
            }
        },
    }
    steps
}

} // verus!
