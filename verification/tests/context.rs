use ailurus_kernel::context::{
    ContextRegisters, ExceptionStackFrame, InterruptFrame, InterruptFrameWithErrorCode,
    IretRegisters, FRAME_WORDS, FRAME_WORDS_WITH_ERROR_CODE,
};

#[test]
fn frame_words_lie_in_push_order() {
    let mut words = [0u64; 20];
    for (i, word) in words.iter_mut().enumerate() {
        *word = 100 + i as u64;
    }
    let frame = InterruptFrame::from_words(&words);
    assert_eq!(
        frame,
        InterruptFrame {
            context_registers: ContextRegisters {
                rax: 100,
                rbx: 101,
                rcx: 102,
                rdx: 103,
                rsi: 104,
                rdi: 105,
                rbp: 106,
                r8: 107,
                r9: 108,
                r10: 109,
                r11: 110,
                r12: 111,
                r13: 112,
                r14: 113,
                r15: 114,
            },
            iret_registers: IretRegisters { rip: 115, cs: 116, rflags: 117, rsp: 118, ss: 119 },
        }
    );
    assert_eq!(frame.to_words(), words);
    assert_eq!(FRAME_WORDS, 20);
}

#[test]
fn error_code_lies_between_registers_and_return_frame() {
    let mut words = [0u64; 21];
    for (i, word) in words.iter_mut().enumerate() {
        *word = 200 + i as u64;
    }
    let frame = InterruptFrameWithErrorCode::from_words(&words);
    assert_eq!(frame.context_registers.rax, 200);
    assert_eq!(frame.context_registers.rbp, 206);
    assert_eq!(frame.context_registers.r15, 214);
    assert_eq!(frame.error_code, 215);
    assert_eq!(
        frame.iret_registers,
        IretRegisters { rip: 216, cs: 217, rflags: 218, rsp: 219, ss: 220 }
    );
    assert_eq!(FRAME_WORDS_WITH_ERROR_CODE, 21);
}

#[test]
fn dropping_error_code_leaves_the_plain_frame() {
    let mut words = [0u64; 21];
    for (i, word) in words.iter_mut().enumerate() {
        *word = 300 + i as u64;
    }
    let frame = InterruptFrameWithErrorCode::from_words(&words).without_error_code();
    let mut plain = [0u64; 20];
    plain[..15].copy_from_slice(&words[..15]);
    plain[15..].copy_from_slice(&words[16..]);
    assert_eq!(frame.to_words(), plain);
    assert_eq!(frame, InterruptFrame::from_words(&plain));
}

#[test]
fn handler_changes_are_restored_from_the_frame() {
    let mut frame = InterruptFrame::from_words(&[7u64; 20]);
    frame.context_registers.rax = 0xdead;
    frame.iret_registers.rip += 2;
    let words = frame.to_words();
    assert_eq!(words[0], 0xdead);
    assert_eq!(words[15], 9);
    assert_eq!(words[1], 7);
}

#[test]
fn return_frame_under_manual_names() {
    let registers = IretRegisters { rip: 1, cs: 2, rflags: 3, rsp: 4, ss: 5 };
    assert_eq!(
        registers.exception_stack_frame(),
        ExceptionStackFrame {
            instruction_pointer: 1,
            code_segment: 2,
            cpu_flags: 3,
            stack_pointer: 4,
            stack_segment: 5,
        }
    );
}
