//! Decisions of the emulator's run loop: keyboard input for the UART, the
//! outcome of each batch of instructions, and the status bar text.

use vstd::prelude::*;
use std::collections::VecDeque;
use vstd::string::StringSliceAdditionalSpecFns;
use crate::text::{pad_left, spec_hex, spec_dec, push_padded, push_digits, push_str};

verus! {

/// Address of the UART status register.
pub const UART_STATUS_ADDR: u32 = 0xFF0101;

/// Bit of the UART status register that is set while a received byte
/// waits to be read by the program.
pub const UART_RX_READY: u8 = 0x01;

/// The byte a key press sends to the UART: the key itself when it is one
/// byte long, newline for Enter, 0x08 for Backspace; other keys send
/// nothing.
pub open spec fn spec_key_byte(key: &str) -> Option<u8> {
    if key.spec_bytes().len() == 1 {
        Some(key.spec_bytes()[0])
    } else if key@ == "Enter"@ {
        Some(10u8)
    } else if key@ == "Backspace"@ {
        Some(8u8)
    } else {
        None
    }
}

/// Maps a keyboard event's key name to the byte typed into the UART.
pub fn key_to_uart_byte(key: &str) -> (r: Option<u8>)
    ensures
        r == spec_key_byte(key),
        key.spec_bytes().len() == 1 ==> r == Some(key.spec_bytes()[0]),
{
    if key.len() == 1 {
        Some(key.as_bytes()[0])
    } else if crate::text::str_eq(key, "Enter") {
        Some(0x0A)
    } else if crate::text::str_eq(key, "Backspace") {
        Some(0x08)
    } else {
        None
    }
}

/// Keyboard bytes waiting to be fed to the UART receiver, oldest first.
pub struct UartInput {
    queue: VecDeque<u8>,
}

impl View for UartInput {
    type V = Seq<u8>;

    closed spec fn view(&self) -> Seq<u8> {
        self.queue@
    }
}

impl UartInput {
    /// An empty input buffer.
    pub fn new() -> (r: UartInput)
        ensures
            r@ == Seq::<u8>::empty(),
    {
        UartInput { queue: VecDeque::new() }
    }

    /// A key was typed: its byte waits behind the earlier ones.
    pub fn push(&mut self, byte: u8)
        ensures
            final(self)@ == old(self)@.push(byte),
    {
        self.queue.push_back(byte);
    }

    /// Drops every waiting byte (a new Run starts).
    pub fn clear(&mut self)
        ensures
            final(self)@ == Seq::<u8>::empty(),
    {
        self.queue.clear();
    }

    /// Whether no byte waits.
    pub fn is_empty(&self) -> (r: bool)
        ensures
            r == (self@.len() == 0),
    {
        self.queue.len() == 0
    }

    /// Hands the oldest waiting byte to the UART when its receiver is free
    /// (`status` has [`UART_RX_READY`] clear); otherwise keeps it.
    pub fn next_for_uart(&mut self, status: u8) -> (r: Option<u8>)
        ensures
            (old(self)@.len() > 0 && status & UART_RX_READY == 0) ==> {
                &&& r == Some(old(self)@[0])
                &&& final(self)@ == old(self)@.drop_first()
            },
            !(old(self)@.len() > 0 && status & UART_RX_READY == 0) ==> {
                &&& r is None
                &&& final(self)@ == old(self)@
            },
    {
        if self.queue.len() > 0 && status & UART_RX_READY == 0 {
            self.queue.pop_front()
        } else {
            None
        }
    }
}

/// Why the emulator stopped running a batch of instructions.
pub enum StopReason {
    /// The program halted.
    Halted,
    /// The CPU met an opcode it does not know.
    InvalidInstruction(u8),
    /// The emulator was paused.
    Paused,
    /// The batch used up its instruction budget; the program goes on.
    BatchDone,
}

/// What the run loop does after a batch.
pub struct BatchOutcome {
    /// Whether the run loop stops.
    pub stop: bool,
    /// Whether the program is now halted.
    pub halted: bool,
    /// The new status bar message, if it changes.
    pub status: Option<String>,
    /// The program counter of a faulting instruction, to be highlighted
    /// in the listing.
    pub fault_pc: Option<u32>,
}

/// The status message for an invalid instruction:
/// `Invalid instruction: {op:#04x} at PC={pc:#06x}`.
pub open spec fn spec_invalid_instruction_text(op: u8, pc: u32) -> Seq<char> {
    "Invalid instruction: 0x"@ + pad_left(spec_hex(op as nat), 2, '0') + " at PC=0x"@
        + pad_left(spec_hex(pc as nat), 4, '0')
}

/// Formats the status message for an invalid instruction.
pub fn invalid_instruction_text(op: u8, pc: u32) -> (r: String)
    ensures
        r@ == spec_invalid_instruction_text(op, pc),
{
    let mut out = String::from_str("Invalid instruction: 0x");
    push_padded(&mut out, op as u64, 16, 2, '0');
    push_str(&mut out, " at PC=0x");
    push_padded(&mut out, pc as u64, 16, 4, '0');
    out
}

/// Whether a status change sets the message to `text`.
pub open spec fn status_is(status: Option<String>, text: Seq<char>) -> bool {
    status matches Some(t) && t@ == text
}

/// Decides what follows a batch that stopped for `reason` with the CPU at
/// `pc`: a halt or an invalid instruction halts the program and stops the
/// loop, a pause stops the loop, and an exhausted budget lets it go on.
pub fn batch_outcome(reason: StopReason, pc: u32) -> (r: BatchOutcome)
    ensures
        match reason {
            StopReason::Halted => r.stop && r.halted && r.fault_pc is None
                && status_is(r.status, "Halted"@),
            StopReason::InvalidInstruction(op) => r.stop && r.halted && r.fault_pc == Some(pc)
                && status_is(r.status, spec_invalid_instruction_text(op, pc)),
            StopReason::Paused => r.stop && !r.halted && r.fault_pc is None
                && status_is(r.status, "Paused"@),
            StopReason::BatchDone => !r.stop && !r.halted && r.fault_pc is None && r.status is None,
        },
{
    match reason {
        StopReason::Halted => BatchOutcome {
            stop: true,
            halted: true,
            status: Some(String::from_str("Halted")),
            fault_pc: None,
        },
        StopReason::InvalidInstruction(op) => BatchOutcome {
            stop: true,
            halted: true,
            status: Some(invalid_instruction_text(op, pc)),
            fault_pc: Some(pc),
        },
        StopReason::Paused => BatchOutcome {
            stop: true,
            halted: false,
            status: Some(String::from_str("Paused")),
            fault_pc: None,
        },
        StopReason::BatchDone => BatchOutcome { stop: false, halted: false, status: None, fault_pc: None },
    }
}

/// The instruction counter of the status bar: `"<n> instructions"`.
pub fn instructions_text(count: u64) -> (r: String)
    ensures
        r@ == spec_dec(count as nat) + " instructions"@,
{
    let mut out = String::new();
    push_digits(&mut out, count, 10);
    push_str(&mut out, " instructions");
    out
}

/// The run controls' state: whether a program runs, whether it halted,
/// the status bar message and the instruction counter.
pub struct RunState {
    /// A run loop is active.
    pub running: bool,
    /// The program halted (normally or on an invalid instruction).
    pub halted: bool,
    /// The status bar message.
    pub status: String,
    /// Instructions executed in this Run.
    pub instructions: u64,
}

impl RunState {
    /// The state when the page opens: idle, "Ready".
    pub fn new() -> (r: RunState)
        ensures
            !r.running && !r.halted && r.instructions == 0 && r.status@ == "Ready"@,
    {
        RunState { running: false, halted: false, status: String::from_str("Ready"), instructions: 0 }
    }

    /// Compilation failed: nothing runs.
    pub fn compile_failed(&mut self)
        ensures
            !final(self).running && !final(self).halted,
            final(self).status@ == "Compile error"@,
            final(self).instructions == old(self).instructions,
    {
        self.running = false;
        self.halted = false;
        self.status = String::from_str("Compile error");
    }

    /// A freshly compiled program starts running.
    pub fn start(&mut self)
        ensures
            final(self).running && !final(self).halted,
            final(self).instructions == 0,
            final(self).status@ == "Running"@,
    {
        self.halted = false;
        self.instructions = 0;
        self.status = String::from_str("Running");
        self.running = true;
    }

    /// A batch ended with the CPU at `pc` after `instructions` instructions
    /// in total: the counter follows, and the outcome of `reason` decides
    /// the rest. Returns the program counter of a faulting instruction.
    pub fn after_batch(&mut self, reason: StopReason, pc: u32, instructions: u64) -> (fault: Option<u32>)
        ensures
            final(self).instructions == instructions,
            ({
                let stops = !(reason is BatchDone);
                &&& final(self).running == (old(self).running && !stops)
                &&& final(self).halted == (old(self).halted || reason is Halted || reason is InvalidInstruction)
                &&& match reason {
                    StopReason::Halted => final(self).status@ == "Halted"@ && fault is None,
                    StopReason::InvalidInstruction(op) => final(self).status@
                        == spec_invalid_instruction_text(op, pc) && fault == Some(pc),
                    StopReason::Paused => final(self).status@ == "Paused"@ && fault is None,
                    StopReason::BatchDone => final(self).status@ == old(self).status@ && fault is None,
                }
            }),
    {
        self.instructions = instructions;
        let outcome = batch_outcome(reason, pc);
        if outcome.halted {
            self.halted = true;
        }
        match outcome.status {
            Some(t) => {
                self.status = t;
            },
            None => {},
        }
        if outcome.stop {
            self.running = false;
        }
        outcome.fault_pc
    }

    /// The user pressed Stop.
    pub fn stop(&mut self)
        ensures
            !final(self).running,
            final(self).halted == old(self).halted,
            final(self).instructions == old(self).instructions,
            final(self).status@ == "Stopped"@,
    {
        self.running = false;
        self.status = String::from_str("Stopped");
    }

    /// A demo was picked: any run stops.
    pub fn demo_picked(&mut self)
        ensures
            !final(self).running,
            final(self).halted == old(self).halted,
            final(self).instructions == old(self).instructions,
            final(self).status@ == old(self).status@,
    {
        self.running = false;
    }

    /// A demo's source was loaded into the editor.
    pub fn demo_loaded(&mut self)
        ensures
            final(self).running == old(self).running,
            final(self).halted == old(self).halted,
            final(self).instructions == old(self).instructions,
            final(self).status@ == "Ready"@,
    {
        self.status = String::from_str("Ready");
    }
}

/// A key whose text is a single byte is typed as exactly that byte: the
/// byte reaching the UART is `key.as_bytes()[0]`, unchanged (no case
/// folding or other mapping).
pub proof fn lemma_single_byte_key_sent_verbatim(key: &str)
    requires
        key.spec_bytes().len() == 1,
    ensures
        spec_key_byte(key) == Some(key.spec_bytes()[0]),
        spec_key_byte(key) matches Some(b) && b == key.spec_bytes()[0],
{
}

/// The bytes a queue hands to the UART come out in the order they were
/// pushed: pushing `b` behind `q` leaves the oldest byte of `q` (if any)
/// in front, and `b` last.
pub proof fn lemma_uart_queue_order(q: Seq<u8>, b: u8)
    ensures
        q.push(b).last() == b,
        q.len() > 0 ==> q.push(b)[0] == q[0],
        q.len() > 0 ==> q.push(b).drop_first() == q.drop_first().push(b),
{
    if q.len() > 0 {
        assert(q.push(b).drop_first() =~= q.drop_first().push(b));
    }
}

} // verus!
