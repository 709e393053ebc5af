use web_sw_cor24_x_tinyc::run::{
    batch_outcome, instructions_text, invalid_instruction_text, key_to_uart_byte, RunState,
    StopReason, UartInput,
};

#[test]
fn keys_to_bytes() {
    assert_eq!(key_to_uart_byte("a"), Some(b'a'));
    assert_eq!(key_to_uart_byte("7"), Some(b'7'));
    assert_eq!(key_to_uart_byte(" "), Some(b' '));
    assert_eq!(key_to_uart_byte("Enter"), Some(b'\n'));
    assert_eq!(key_to_uart_byte("Backspace"), Some(0x08));
    assert_eq!(key_to_uart_byte("Shift"), None);
    assert_eq!(key_to_uart_byte("ArrowLeft"), None);
    assert_eq!(key_to_uart_byte("é"), None);
    assert_eq!(key_to_uart_byte(""), None);
}

#[test]
fn uart_input_is_first_in_first_out() {
    let mut input = UartInput::new();
    assert!(input.is_empty());
    assert_eq!(input.next_for_uart(0), None);
    input.push(b'h');
    input.push(b'i');
    assert_eq!(input.next_for_uart(0x01), None);
    assert_eq!(input.next_for_uart(0x80), Some(b'h'));
    assert_eq!(input.next_for_uart(0x00), Some(b'i'));
    assert_eq!(input.next_for_uart(0x00), None);
    input.push(1);
    input.clear();
    assert!(input.is_empty());
}

#[test]
fn invalid_instruction_message_matches_format() {
    for &(op, pc) in &[(0u8, 0u32), (0xAB, 0x12), (0x0F, 0x1234), (0xFF, 0xFF0101), (7, 0xFFFF_FFFF)] {
        assert_eq!(invalid_instruction_text(op, pc), format!("Invalid instruction: {op:#04x} at PC={pc:#06x}"));
    }
}

#[test]
fn batch_outcomes() {
    let o = batch_outcome(StopReason::Halted, 5);
    assert!(o.stop && o.halted && o.fault_pc.is_none());
    assert_eq!(o.status.as_deref(), Some("Halted"));
    let o = batch_outcome(StopReason::InvalidInstruction(0xEE), 0x40);
    assert!(o.stop && o.halted);
    assert_eq!(o.fault_pc, Some(0x40));
    assert_eq!(o.status.as_deref(), Some("Invalid instruction: 0xee at PC=0x0040"));
    let o = batch_outcome(StopReason::Paused, 5);
    assert!(o.stop && !o.halted);
    assert_eq!(o.status.as_deref(), Some("Paused"));
    let o = batch_outcome(StopReason::BatchDone, 5);
    assert!(!o.stop && !o.halted && o.status.is_none() && o.fault_pc.is_none());
}

#[test]
fn run_state_flow() {
    let mut st = RunState::new();
    assert_eq!(st.status, "Ready");
    st.compile_failed();
    assert_eq!(st.status, "Compile error");
    assert!(!st.running);
    st.start();
    assert!(st.running && !st.halted);
    assert_eq!(st.status, "Running");
    assert_eq!(st.after_batch(StopReason::BatchDone, 10, 10000), None);
    assert!(st.running);
    assert_eq!(st.instructions, 10000);
    assert_eq!(st.status, "Running");
    assert_eq!(st.after_batch(StopReason::Halted, 12, 10003), None);
    assert!(!st.running && st.halted);
    assert_eq!(st.status, "Halted");
    st.start();
    assert_eq!(st.instructions, 0);
    st.stop();
    assert!(!st.running);
    assert_eq!(st.status, "Stopped");
    st.demo_picked();
    st.demo_loaded();
    assert_eq!(st.status, "Ready");
    assert_eq!(instructions_text(0), "0 instructions");
    assert_eq!(instructions_text(123456), "123456 instructions");
}
