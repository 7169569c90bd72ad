//! The register state that an interrupt leaves on the stack.
//!
//! On entry the processor pushes the return frame: stack segment, stack
//! pointer, flags, code segment and instruction pointer, and for some
//! exceptions an error code after them. The entry code of a handler then
//! pushes the fifteen general registers, from `r15` down to `rax`. The stack
//! grows downwards, so from the stack pointer upwards the words lie in the
//! order in which the fields of the frames are declared here.

use vstd::prelude::*;

verus! {

/// The general registers that the entry code of a handler saves.
#[derive(Debug, Copy, Clone, PartialEq, Eq, Structural)]
pub struct ContextRegisters {
    pub rax: u64,
    pub rbx: u64,
    pub rcx: u64,
    pub rdx: u64,
    pub rsi: u64,
    pub rdi: u64,
    pub rbp: u64,
    pub r8: u64,
    pub r9: u64,
    pub r10: u64,
    pub r11: u64,
    pub r12: u64,
    pub r13: u64,
    pub r14: u64,
    pub r15: u64,
}

/// The return frame that the processor pushes.
#[derive(Debug, Copy, Clone, PartialEq, Eq, Structural)]
pub struct IretRegisters {
    pub rip: u64,
    pub cs: u64,
    pub rflags: u64,
    pub rsp: u64,
    pub ss: u64,
}

/// What a handler finds on the stack after an interrupt without error code.
#[derive(Debug, Copy, Clone, PartialEq, Eq, Structural)]
pub struct InterruptFrame {
    pub context_registers: ContextRegisters,
    pub iret_registers: IretRegisters,
}

/// What a handler finds on the stack after an exception with an error code:
/// the code lies between the saved registers and the return frame.
#[derive(Debug, Copy, Clone, PartialEq, Eq, Structural)]
pub struct InterruptFrameWithErrorCode {
    pub context_registers: ContextRegisters,
    pub error_code: u64,
    pub iret_registers: IretRegisters,
}

/// The return frame under the names that the processor manuals give its
/// parts.
#[derive(Debug, Copy, Clone, PartialEq, Eq, Structural)]
pub struct ExceptionStackFrame {
    pub instruction_pointer: u64,
    pub code_segment: u64,
    pub cpu_flags: u64,
    pub stack_pointer: u64,
    pub stack_segment: u64,
}

/// Number of words of a frame without error code.
pub const FRAME_WORDS: usize = 20;

/// Number of words of a frame with error code.
pub const FRAME_WORDS_WITH_ERROR_CODE: usize = 21;

/// The saved registers in the order in which they lie on the stack, from
/// the stack pointer upwards.
pub open spec fn context_words(registers: ContextRegisters) -> Seq<u64> {
    seq![
        registers.rax,
        registers.rbx,
        registers.rcx,
        registers.rdx,
        registers.rsi,
        registers.rdi,
        registers.rbp,
        registers.r8,
        registers.r9,
        registers.r10,
        registers.r11,
        registers.r12,
        registers.r13,
        registers.r14,
        registers.r15,
    ]
}

/// The return frame in the order in which it lies on the stack.
pub open spec fn iret_words(registers: IretRegisters) -> Seq<u64> {
    seq![registers.rip, registers.cs, registers.rflags, registers.rsp, registers.ss]
}

/// The words of a frame without error code, from the stack pointer upwards.
pub open spec fn frame_words(frame: InterruptFrame) -> Seq<u64> {
    context_words(frame.context_registers) + iret_words(frame.iret_registers)
}

/// The words of a frame with error code, from the stack pointer upwards.
pub open spec fn frame_words_with_error_code(frame: InterruptFrameWithErrorCode) -> Seq<u64> {
    context_words(frame.context_registers) + seq![frame.error_code] + iret_words(
        frame.iret_registers,
    )
}

impl ContextRegisters {
    /// The registers that lie in the fifteen words from `at` on.
    fn from_words(words: &[u64], at: usize) -> (registers: ContextRegisters)
        requires
            at + 15 <= words.len(),
        ensures
            context_words(registers) == words@.subrange(at as int, at + 15),
    {
        let registers = ContextRegisters {
            rax: words[at],
            rbx: words[at + 1],
            rcx: words[at + 2],
            rdx: words[at + 3],
            rsi: words[at + 4],
            rdi: words[at + 5],
            rbp: words[at + 6],
            r8: words[at + 7],
            r9: words[at + 8],
            r10: words[at + 9],
            r11: words[at + 10],
            r12: words[at + 11],
            r13: words[at + 12],
            r14: words[at + 13],
            r15: words[at + 14],
        };
        assert(context_words(registers) =~= words@.subrange(at as int, at + 15));
        registers
    }
}

impl IretRegisters {
    /// The return frame that lies in the five words from `at` on.
    fn from_words(words: &[u64], at: usize) -> (registers: IretRegisters)
        requires
            at + 5 <= words.len(),
        ensures
            iret_words(registers) == words@.subrange(at as int, at + 5),
    {
        let registers = IretRegisters {
            rip: words[at],
            cs: words[at + 1],
            rflags: words[at + 2],
            rsp: words[at + 3],
            ss: words[at + 4],
        };
        assert(iret_words(registers) =~= words@.subrange(at as int, at + 5));
        registers
    }

    /// The same frame under the names of the processor manuals.
    pub fn exception_stack_frame(&self) -> (frame: ExceptionStackFrame)
        ensures
            frame == (ExceptionStackFrame {
                instruction_pointer: self.rip,
                code_segment: self.cs,
                cpu_flags: self.rflags,
                stack_pointer: self.rsp,
                stack_segment: self.ss,
            }),
    {
        ExceptionStackFrame {
            instruction_pointer: self.rip,
            code_segment: self.cs,
            cpu_flags: self.rflags,
            stack_pointer: self.rsp,
            stack_segment: self.ss,
        }
    }
}

impl InterruptFrame {
    /// The frame that the twenty words above the stack pointer hold.
    pub fn from_words(words: &[u64; FRAME_WORDS]) -> (frame: InterruptFrame)
        ensures
            frame_words(frame) == words@,
    {
        let frame = InterruptFrame {
            context_registers: ContextRegisters::from_words(words.as_slice(), 0),
            iret_registers: IretRegisters::from_words(words.as_slice(), 15),
        };
        assert(frame_words(frame) =~= words@);
        frame
    }

    /// The twenty words that the registers are restored from when the
    /// handler is done.
    pub fn to_words(&self) -> (words: [u64; FRAME_WORDS])
        ensures
            words@ == frame_words(*self),
    {
        let words: [u64; FRAME_WORDS] = [
            self.context_registers.rax,
            self.context_registers.rbx,
            self.context_registers.rcx,
            self.context_registers.rdx,
            self.context_registers.rsi,
            self.context_registers.rdi,
            self.context_registers.rbp,
            self.context_registers.r8,
            self.context_registers.r9,
            self.context_registers.r10,
            self.context_registers.r11,
            self.context_registers.r12,
            self.context_registers.r13,
            self.context_registers.r14,
            self.context_registers.r15,
            self.iret_registers.rip,
            self.iret_registers.cs,
            self.iret_registers.rflags,
            self.iret_registers.rsp,
            self.iret_registers.ss,
        ];
        assert(words@ =~= frame_words(*self));
        words
    }
}

impl InterruptFrameWithErrorCode {
    /// The frame that the twenty-one words above the stack pointer hold.
    pub fn from_words(words: &[u64; FRAME_WORDS_WITH_ERROR_CODE]) -> (frame:
        InterruptFrameWithErrorCode)
        ensures
            frame_words_with_error_code(frame) == words@,
    {
        let frame = InterruptFrameWithErrorCode {
            context_registers: ContextRegisters::from_words(words.as_slice(), 0),
            error_code: words[15],
            iret_registers: IretRegisters::from_words(words.as_slice(), 16),
        };
        assert(frame_words_with_error_code(frame) =~= words@);
        frame
    }

    /// The frame that is left when the error code has been taken from the
    /// stack: what the registers are restored from when the handler is
    /// done.
    pub fn without_error_code(&self) -> (frame: InterruptFrame)
        ensures
            frame.context_registers == self.context_registers,
            frame.iret_registers == self.iret_registers,
    {
        InterruptFrame {
            context_registers: self.context_registers,
            iret_registers: self.iret_registers,
        }
    }
}

} // verus!
