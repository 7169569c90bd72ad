//! Setting up the descriptor table, and what the handlers of the timer and
//! of the keyboard do once the entry code has saved the registers.

use vstd::prelude::*;
use vstd::utf8::encode_utf8;
use crate::context::{InterruptFrame, InterruptFrameWithErrorCode};
use crate::idt::{
    DescriptorTablePointer,
    ENTRY_SIZE,
    INT_COUNT,
    Idt,
    with_present,
};
use crate::keyboard::{Key, ScancodeDecoder};
use crate::pic::{ChainedPics, byte_read, end_of_interrupt_writes};
use crate::port::{PortRead, PortWrite, UnsafePort};
use crate::segmentation::SegmentSelector;
use crate::text::{hex_digits, hexadecimal, push_hex, push_hexadecimal, push_text};
use crate::vga_buffer::{Writer, after_bytes};

verus! {

/// Vector of the exception that a division by zero raises.
pub const DIVIDE_BY_ZERO_VECTOR: u8 = 0;

/// Vector of the timer: line 0 of the primary controller.
pub const TIMER_VECTOR: u8 = 32;

/// Vector of the keyboard: line 1 of the primary controller.
pub const KEYBOARD_VECTOR: u8 = 33;

/// Port from which the scan codes of the keyboard are read.
pub const KEYBOARD_DATA_PORT: u16 = 0x60;

/// Addresses of the entry code of the three handlers.
#[derive(Debug, Copy, Clone, PartialEq, Eq, Structural)]
pub struct HandlerAddresses {
    pub divide_by_zero: u64,
    pub timer: u64,
    pub keyboard: u64,
}

/// The address that the table binds to `vector` once it is set up with
/// `handlers`, if it binds one.
pub open spec fn bound_handler(handlers: HandlerAddresses, vector: int) -> Option<u64> {
    if vector == DIVIDE_BY_ZERO_VECTOR {
        Some(handlers.divide_by_zero)
    } else if vector == TIMER_VECTOR {
        Some(handlers.timer)
    } else if vector == KEYBOARD_VECTOR {
        Some(handlers.keyboard)
    } else {
        None
    }
}

/// Binds the handlers of the division by zero, of the timer and of the
/// keyboard to their vectors, to run in the code segment `cs`, and gives
/// what is to be loaded into the table register for a table at the address
/// `base`. The other entries stay as they are.
pub fn init_idt(
    idt: &mut Idt,
    base: u64,
    handlers: HandlerAddresses,
    cs: SegmentSelector,
) -> (pointer: DescriptorTablePointer)
    ensures
        final(idt)@.len() == INT_COUNT,
        forall|vector: int|
            0 <= vector < INT_COUNT ==> match bound_handler(handlers, vector) {
                Some(address) => {
                    &&& (#[trigger] final(idt)@[vector]).handler() == address
                    &&& final(idt)@[vector].selector() == cs
                    &&& final(idt)@[vector].option_bits() == with_present(
                        old(idt)@[vector].option_bits(),
                        true,
                    )
                    &&& final(idt)@[vector].reserved_is_zero() == old(
                        idt,
                    )@[vector].reserved_is_zero()
                },
                None => final(idt)@[vector] == old(idt)@[vector],
            },
        pointer.base == base,
        pointer.limit == INT_COUNT * ENTRY_SIZE - 1,
{
    proof {
        idt.lemma_len();
    }
    idt.set_handler_fn(DIVIDE_BY_ZERO_VECTOR as usize, handlers.divide_by_zero, cs);
    idt.set_handler_fn(TIMER_VECTOR as usize, handlers.timer, cs);
    idt.set_handler_fn(KEYBOARD_VECTOR as usize, handlers.keyboard, cs);
    idt.load(base)
}

/// What the handler of the timer does: it acknowledges the interrupt.
pub fn timer(pics: &mut ChainedPics) -> (writes: Vec<PortWrite>)
    ensures
        *final(pics) == *old(pics),
        writes@ == end_of_interrupt_writes(
            old(pics).primary_offset(),
            old(pics).secondary_offset(),
            TIMER_VECTOR,
        ),
{
    pics.notify_end_of_interrupt(TIMER_VECTOR)
}

/// The read that gives the handler of the keyboard the scan code.
pub fn keyboard_scancode() -> (read: PortRead)
    ensures
        read == byte_read(KEYBOARD_DATA_PORT),
{
    let port: UnsafePort<u8> = UnsafePort::new(KEYBOARD_DATA_PORT);
    port.read()
}

/// Shows the key, if there is one: writes the text that stands for it, and
/// gives that text.
pub fn show_key(writer: &mut Writer, key: Option<Key>) -> (text: Option<String>)
    ensures
        final(writer).colors() == old(writer).colors(),
        text is Some <==> key is Some,
        key matches Some(Key::Unicode(character)) ==> text matches Some(shown) && shown@
            == seq![character],
        match text {
            Some(shown) => final(writer)@ == after_bytes(
                old(writer)@,
                old(writer).colors(),
                encode_utf8(shown@),
            ),
            None => final(writer)@ == old(writer)@,
        },
{
    match key {
        Some(key) => {
            let shown: String = key.text();
            writer.write_string(shown.as_str());
            Some(shown)
        },
        None => None,
    }
}

/// What the handler of the keyboard does with the scan code that it has
/// read: it hands the scan code to the decoder, shows the key if that
/// completes one, and acknowledges the interrupt. Which key comes of a scan
/// code is for the decoder to say; the interrupt is acknowledged whatever it
/// says.
pub fn keyboard(
    decoder: &mut ScancodeDecoder,
    writer: &mut Writer,
    pics: &mut ChainedPics,
    scancode: u8,
) -> (done: (Option<String>, Vec<PortWrite>))
    ensures
        final(writer).colors() == old(writer).colors(),
        match done.0 {
            Some(shown) => final(writer)@ == after_bytes(
                old(writer)@,
                old(writer).colors(),
                encode_utf8(shown@),
            ),
            None => final(writer)@ == old(writer)@,
        },
        *final(pics) == *old(pics),
        done.1@ == end_of_interrupt_writes(
            old(pics).primary_offset(),
            old(pics).secondary_offset(),
            KEYBOARD_VECTOR,
        ),
{
    let key: Option<Key> = decoder.decode(scancode);
    let text: Option<String> = show_key(writer, key);
    let writes: Vec<PortWrite> = pics.notify_end_of_interrupt(KEYBOARD_VECTOR);
    (text, writes)
}

/// The text with a label and the sixteen hexadecimal digits of a register
/// behind it.
pub open spec fn with_register(text: Seq<char>, label: Seq<char>, value: u64) -> Seq<char> {
    text + label + hex_digits(value as int, 16)
}

/// The text with the registers of the frame behind it, three to a line.
pub open spec fn with_registers(text: Seq<char>, frame: InterruptFrame) -> Seq<char> {
    let context = frame.context_registers;
    let iret = frame.iret_registers;
    let text = text + "REGISTERS:\n"@;
    let text = with_register(text, "  RAX: 0x"@, context.rax);
    let text = with_register(text, "  RBX: 0x"@, context.rbx);
    let text = with_register(text, "  RCX: 0x"@, context.rcx) + "\n"@;
    let text = with_register(text, "  RDX: 0x"@, context.rdx);
    let text = with_register(text, "  RSI: 0x"@, context.rsi);
    let text = with_register(text, "  RDI: 0x"@, context.rdi) + "\n"@;
    let text = with_register(text, "  R8:  0x"@, context.r8);
    let text = with_register(text, "  R9:  0x"@, context.r9);
    let text = with_register(text, "  R10: 0x"@, context.r10) + "\n"@;
    let text = with_register(text, "  R11: 0x"@, context.r11);
    let text = with_register(text, "  R12: 0x"@, context.r12);
    let text = with_register(text, "  R13: 0x"@, context.r13) + "\n"@;
    let text = with_register(text, "  R14: 0x"@, context.r14);
    let text = with_register(text, "  R15: 0x"@, context.r15);
    let text = with_register(text, "  RIP: 0x"@, iret.rip) + "\n"@;
    let text = with_register(text, "  RBP: 0x"@, context.rbp);
    let text = with_register(text, "  RSP: 0x"@, iret.rsp) + "\n"@;
    let text = with_register(text, "  RF:  0x"@, iret.rflags) + "\n"@;
    let text = with_register(text, "  CS:  0x"@, iret.cs);
    with_register(text, "  SS:  0x"@, iret.ss) + "\n"@
}

/// The text with the heading of a dump behind it: an empty line, the banner,
/// the name of the exception, and the address of the instruction at which
/// it was raised.
pub open spec fn with_dump_heading(text: Seq<char>, name: Seq<char>, rip: u64) -> Seq<char> {
    let text = text
        + "\n-----------------------------EXCEPTION OCCURRED!------------------------------\n"@;
    let text = text + "EXCEPTION: "@ + name + "\n"@;
    with_register(text, "INSTRUCTION POINTER: 0x"@, rip) + "\n"@
}

/// The line that closes a dump.
pub open spec fn dump_end() -> Seq<char> {
    "---------------------------------END OF DUMP----------------------------------\n"@
}

/// What is shown of an exception without error code.
pub open spec fn interrupt_dump(name: Seq<char>, frame: InterruptFrame) -> Seq<char> {
    with_registers(with_dump_heading(Seq::empty(), name, frame.iret_registers.rip), frame)
        + dump_end()
}

/// What is shown of an exception with an error code: the code, in
/// hexadecimal digits without zeros in front, follows the registers.
pub open spec fn interrupt_dump_with_error_code(
    name: Seq<char>,
    frame: InterruptFrameWithErrorCode,
) -> Seq<char> {
    let registers = InterruptFrame {
        context_registers: frame.context_registers,
        iret_registers: frame.iret_registers,
    };
    with_registers(with_dump_heading(Seq::empty(), name, frame.iret_registers.rip), registers)
        + "ERROR CODE: 0x"@ + hexadecimal(frame.error_code as int) + "\n"@ + dump_end()
}

fn push_register(text: &mut String, label: &str, value: u64)
    ensures
        final(text)@ == with_register(old(text)@, label@, value),
{
    push_text(text, label);
    push_hex(text, value, 16);
}

fn dump_registers(text: &mut String, frame: &InterruptFrame)
    ensures
        final(text)@ == with_registers(old(text)@, *frame),
{
    push_text(text, "REGISTERS:\n");
    push_register(text, "  RAX: 0x", frame.context_registers.rax);
    push_register(text, "  RBX: 0x", frame.context_registers.rbx);
    push_register(text, "  RCX: 0x", frame.context_registers.rcx);
    push_text(text, "\n");
    push_register(text, "  RDX: 0x", frame.context_registers.rdx);
    push_register(text, "  RSI: 0x", frame.context_registers.rsi);
    push_register(text, "  RDI: 0x", frame.context_registers.rdi);
    push_text(text, "\n");
    push_register(text, "  R8:  0x", frame.context_registers.r8);
    push_register(text, "  R9:  0x", frame.context_registers.r9);
    push_register(text, "  R10: 0x", frame.context_registers.r10);
    push_text(text, "\n");
    push_register(text, "  R11: 0x", frame.context_registers.r11);
    push_register(text, "  R12: 0x", frame.context_registers.r12);
    push_register(text, "  R13: 0x", frame.context_registers.r13);
    push_text(text, "\n");
    push_register(text, "  R14: 0x", frame.context_registers.r14);
    push_register(text, "  R15: 0x", frame.context_registers.r15);
    push_register(text, "  RIP: 0x", frame.iret_registers.rip);
    push_text(text, "\n");
    push_register(text, "  RBP: 0x", frame.context_registers.rbp);
    push_register(text, "  RSP: 0x", frame.iret_registers.rsp);
    push_text(text, "\n");
    push_register(text, "  RF:  0x", frame.iret_registers.rflags);
    push_text(text, "\n");
    push_register(text, "  CS:  0x", frame.iret_registers.cs);
    push_register(text, "  SS:  0x", frame.iret_registers.ss);
    push_text(text, "\n");
}

fn dump_heading(text: &mut String, name: &str, rip: u64)
    ensures
        final(text)@ == with_dump_heading(old(text)@, name@, rip),
{
    push_text(
        text,
        "\n-----------------------------EXCEPTION OCCURRED!------------------------------\n",
    );
    push_text(text, "EXCEPTION: ");
    push_text(text, name);
    push_text(text, "\n");
    push_register(text, "INSTRUCTION POINTER: 0x", rip);
    push_text(text, "\n");
}

/// The text that is shown of the exception `name` that was raised in the
/// state `frame`.
pub fn dump_interrupt_info(name: &str, frame: &InterruptFrame) -> (text: String)
    ensures
        text@ == interrupt_dump(name@, *frame),
{
    let mut text: String = String::new();
    proof {
        assert(text@ =~= Seq::<char>::empty());
    }
    dump_heading(&mut text, name, frame.iret_registers.rip);
    dump_registers(&mut text, frame);
    push_text(
        &mut text,
        "---------------------------------END OF DUMP----------------------------------\n",
    );
    text
}

/// The text that is shown of the exception `name` that was raised, with an
/// error code, in the state `frame`.
pub fn dump_interrupt_info_with_error_code(
    name: &str,
    frame: &InterruptFrameWithErrorCode,
) -> (text: String)
    ensures
        text@ == interrupt_dump_with_error_code(name@, *frame),
{
    let mut text: String = String::new();
    proof {
        assert(text@ =~= Seq::<char>::empty());
    }
    let registers: InterruptFrame = frame.without_error_code();
    dump_heading(&mut text, name, frame.iret_registers.rip);
    dump_registers(&mut text, &registers);
    push_text(&mut text, "ERROR CODE: 0x");
    push_hexadecimal(&mut text, frame.error_code);
    push_text(&mut text, "\n");
    push_text(
        &mut text,
        "---------------------------------END OF DUMP----------------------------------\n",
    );
    text
}

/// What the handler of the division by zero does: it shows the exception
/// and the registers. There is no going back to the instruction that
/// divided: the caller halts.
pub fn divide_by_zero(writer: &mut Writer, frame: &InterruptFrame) -> (text: String)
    ensures
        text@ == interrupt_dump("DIVIDE BY ZERO"@, *frame),
        final(writer).colors() == old(writer).colors(),
        final(writer)@ == after_bytes(old(writer)@, old(writer).colors(), encode_utf8(text@)),
{
    let text: String = dump_interrupt_info("DIVIDE BY ZERO", frame);
    writer.write_string(text.as_str());
    text
}

} // verus!
