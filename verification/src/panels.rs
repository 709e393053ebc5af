//! What the peripheral panels show: the register grid, the LED, the S2
//! switch, and the idle placeholder of the UART and I2C output boxes.

use vstd::prelude::*;
use crate::text::{pad_left, spec_hex, format_padded};

verus! {

/// The names of the eight CPU registers, in register-number order.
pub const REG_NAMES: [&'static str; 8] = ["r0", "r1", "r2", "fp", "sp", "z", "iv", "ir"];

/// A register value as the register grid shows it: six lower-case hex
/// digits, zero-padded (`{:06x}`).
pub fn register_value_text(value: u32) -> (r: String)
    ensures
        r@ == pad_left(spec_hex(value as nat), 6, '0'),
{
    format_padded(value as u64, 16, 6, '0')
}

/// The condition flag as the register grid shows it.
pub fn condition_flag_text(cond: bool) -> (r: &'static str)
    ensures
        r@ == if cond { "1"@ } else { "0"@ },
{
    if cond {
        "1"
    } else {
        "0"
    }
}

/// Whether LED D2 is lit: it is active-low, lit while bit 0 of the LED
/// register is clear.
pub fn led_is_lit(state: u8) -> (r: bool)
    ensures
        r == (state & 1 == 0),
{
    state & 1 == 0
}

/// The colour of LED D2: green when lit, dark when off.
pub fn led_color(state: u8) -> (r: &'static str)
    ensures
        r@ == if state & 1 == 0 { "#a6e3a1"@ } else { "#313244"@ },
{
    if led_is_lit(state) {
        "#a6e3a1"
    } else {
        "#313244"
    }
}

/// How the S2 switch button looks.
pub struct SwitchStyle {
    /// Background colour.
    pub background: &'static str,
    /// Text colour.
    pub foreground: &'static str,
    /// Button label.
    pub label: &'static str,
}

/// The look of the S2 switch button: green "ON" while pressed, grey
/// "OFF" otherwise.
pub fn switch_style(pressed: bool) -> (r: SwitchStyle)
    ensures
        pressed ==> r.background@ == "#a6e3a1"@ && r.foreground@ == "#1e1e2e"@ && r.label@ == "ON"@,
        !pressed ==> r.background@ == "#313244"@ && r.foreground@ == "#9399b2"@ && r.label@ == "OFF"@,
{
    if pressed {
        SwitchStyle { background: "#a6e3a1", foreground: "#1e1e2e", label: "ON" }
    } else {
        SwitchStyle { background: "#313244", foreground: "#9399b2", label: "OFF" }
    }
}

/// Whether an output box (UART or I2C) shows its "(no output)" style
/// placeholder: only while it is empty and no program runs or has halted.
pub fn shows_idle_placeholder(output: &str, running: bool, halted: bool) -> (r: bool)
    ensures
        r == (output@.len() == 0 && !running && !halted),
{
    output.is_empty() && !running && !halted
}

} // verus!
