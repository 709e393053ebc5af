//! DS1307 real-time-clock arithmetic: seconds since midnight and the
//! (hours, minutes, seconds) triple shown in the RTC panel.

use vstd::prelude::*;
use crate::text::{spec_dec, pad_left, spec_parse_u32, parse_u32, push_padded, push_char, push_digits};

verus! {

/// Number of seconds in one day; the RTC wraps at midnight.
pub const SECS_PER_DAY: u32 = 86400;

/// The hour, minute and second of a count of seconds.
pub open spec fn spec_secs_to_hms(secs: nat) -> (u8, u8, u8) {
    (((secs / 3600) % 24) as u8, ((secs / 60) % 60) as u8, (secs % 60) as u8)
}

/// Seconds since midnight of an (h, m, s) triple.
pub open spec fn spec_hms_to_secs(h: nat, m: nat, s: nat) -> nat {
    h * 3600 + m * 60 + s
}

/// Splits a count of seconds into (hours mod 24, minutes, seconds).
pub fn secs_to_hms(secs: u32) -> (r: (u8, u8, u8))
    ensures
        r == spec_secs_to_hms(secs as nat),
        r.0 < 24 && r.1 < 60 && r.2 < 60,
{
    (((secs / 3600) % 24) as u8, ((secs / 60) % 60) as u8, (secs % 60) as u8)
}

/// Seconds since midnight of the given hours, minutes and seconds.
pub fn hms_to_secs(h: u8, m: u8, s: u8) -> (r: u32)
    ensures
        r == spec_hms_to_secs(h as nat, m as nat, s as nat),
{
    (h as u32) * 3600 + (m as u32) * 60 + s as u32
}

/// The clock after `elapsed` seconds from `anchor`, wrapped into one day
/// (Euclidean remainder, so a negative elapsed time counts backwards).
pub open spec fn spec_rtc_advance(anchor: int, elapsed: int) -> int {
    (anchor + elapsed) % (SECS_PER_DAY as int)
}

/// Advances a clock anchored at `anchor_secs` by `elapsed_s` whole seconds
/// and wraps the result into `0..86400`: the integer part of
/// `rtc(t) = (anchor_secs + (t - anchor_real_ms) / 1000) mod 86400`.
pub fn rtc_advance(anchor_secs: u32, elapsed_s: i64) -> (r: u32)
    ensures
        r == spec_rtc_advance(anchor_secs as int, elapsed_s as int),
        r < SECS_PER_DAY,
{
    let total: i128 = anchor_secs as i128 + elapsed_s as i128;
    if total >= 0 {
        let r: u128 = (total as u128) % 86400;
        r as u32
    } else {
        let k: u128 = (-(total + 1)) as u128;
        let m: u128 = k % 86400;
        proof {
            let q: int = k as int / 86400;
            assert(k as int == q * 86400 + m as int) by (nonlinear_arith)
                requires q == k as int / 86400, m as int == k as int % 86400;
            vstd::arithmetic::div_mod::lemma_fundamental_div_mod_converse(
                total as int, 86400, -q - 1, 86399 - m as int);
        }
        (86399 - m) as u32
    }
}

/// Setting the clock to a valid time and reading it back gives that time.
pub proof fn lemma_hms_round_trip(h: nat, m: nat, s: nat)
    requires
        h < 24,
        m < 60,
        s < 60,
    ensures
        spec_secs_to_hms(spec_hms_to_secs(h, m, s)) == (h as u8, m as u8, s as u8),
        spec_hms_to_secs(h, m, s) < SECS_PER_DAY,
{
    let t = spec_hms_to_secs(h, m, s);
    assert(t / 3600 == h && t / 60 == h * 60 + m && t % 60 == s) by (nonlinear_arith)
        requires t == h * 3600 + m * 60 + s, h < 24, m < 60, s < 60;
    assert((h * 60 + m) % 60 == m) by (nonlinear_arith) requires m < 60;
}

/// Reading a count of seconds as a time and converting back gives the
/// count reduced to one day.
pub proof fn lemma_secs_round_trip(secs: nat)
    ensures
        spec_hms_to_secs(
            spec_secs_to_hms(secs).0 as nat,
            spec_secs_to_hms(secs).1 as nat,
            spec_secs_to_hms(secs).2 as nat,
        ) == secs % (SECS_PER_DAY as nat),
{
    let h = (secs / 3600) % 24;
    let m = (secs / 60) % 60;
    let s = secs % 60;
    assert(h * 3600 + m * 60 + s == secs % 86400) by (nonlinear_arith)
        requires h == (secs / 3600) % 24, m == (secs / 60) % 60, s == secs % 60;
}

/// Re-anchoring the clock after `e1` seconds and then advancing it by `e2`
/// gives the same time as advancing the original anchor by `e1 + e2`.
pub proof fn lemma_advance_compose(anchor: int, e1: int, e2: int)
    ensures
        spec_rtc_advance(spec_rtc_advance(anchor, e1), e2) == spec_rtc_advance(anchor, e1 + e2),
{
    let d: int = 86400;
    let a = anchor + e1;
    assert(((a % d) + e2) % d == (a + e2) % d) by (nonlinear_arith)
        requires d == 86400;
}

/// Two-digit, zero-padded decimal, as `{:02}` writes it.
pub open spec fn two_digits(v: u8) -> Seq<char> {
    pad_left(spec_dec(v as nat), 2, '0')
}

/// The clock face of the RTC panel, `HH:MM:SS`.
pub open spec fn spec_format_hms(h: u8, m: u8, s: u8) -> Seq<char> {
    two_digits(h) + seq![':'] + two_digits(m) + seq![':'] + two_digits(s)
}

/// Renders a time as `HH:MM:SS` (`format!("{h:02}:{m:02}:{s:02}")`).
pub fn format_hms(h: u8, m: u8, s: u8) -> (r: String)
    ensures
        r@ == spec_format_hms(h, m, s),
{
    let mut out = String::new();
    push_padded(&mut out, h as u64, 10, 2, '0');
    push_char(&mut out, ':');
    push_padded(&mut out, m as u64, 10, 2, '0');
    push_char(&mut out, ':');
    push_padded(&mut out, s as u64, 10, 2, '0');
    assert(out@ =~= spec_format_hms(h, m, s));
    out
}

/// What the panel reads from one of its H/M/S inputs: the number typed,
/// capped at `max`, or 0 when the field does not hold a number.
pub open spec fn spec_time_field(text: Seq<char>, max: u8) -> u8 {
    match spec_parse_u32(text) {
        Some(v) => if v <= max {
            v as u8
        } else {
            max
        },
        None => 0,
    }
}

/// Reads one of the RTC panel's number inputs: parsed as `u32`, capped at
/// `max`, 0 when empty or not a number.
pub fn read_time_field(text: &str, max: u8) -> (r: u8)
    ensures
        r == spec_time_field(text@, max),
        r <= max,
        forall|v: u32| #[trigger] spec_dec(v as nat) == text@ ==> r == (if v <= max as u32 { v as u8 } else { max }),
{
    proof {
        assert forall|v: u32| #[trigger] spec_dec(v as nat) == text@ implies
            spec_time_field(text@, max) == (if v <= max as u32 { v as u8 } else { max }) by {
            lemma_time_field_reads_number(v, max);
        }
    }
    match parse_u32(text) {
        Some(v) => if v <= max as u32 {
            v as u8
        } else {
            max
        },
        None => 0,
    }
}

/// Typing a number into an H/M/S input reads that number when it is within
/// the field's maximum, and the maximum when it is larger.
pub proof fn lemma_time_field_reads_number(v: u32, max: u8)
    ensures
        v <= max ==> spec_time_field(spec_dec(v as nat), max) == v as u8,
        v > max ==> spec_time_field(spec_dec(v as nat), max) == max,
{
    crate::text::lemma_parse_dec_round_trip(v);
}

/// Whether the stored battery setting switches the battery on: only the
/// text "1" does.
pub fn battery_from_storage(stored: Option<&str>) -> (r: bool)
    ensures
        r == (stored matches Some(t) && t@ == "1"@),
{
    match stored {
        Some(t) => crate::text::str_eq(t, "1"),
        None => false,
    }
}

/// The stored clock anchor in seconds, 0 when absent or unreadable.
pub fn anchor_secs_from_storage(stored: Option<&str>) -> (r: u32)
    ensures
        r == match stored {
            Some(t) => match spec_parse_u32(t@) {
                Some(v) => v,
                None => 0,
            },
            None => 0,
        },
{
    match stored {
        Some(t) => match parse_u32(t) {
            Some(v) => v,
            None => 0,
        },
        None => 0,
    }
}

/// The text under which an anchor in seconds is stored (its decimal form).
pub fn anchor_secs_to_storage(secs: u32) -> (r: String)
    ensures
        r@ == spec_dec(secs as nat),
{
    let mut out = String::new();
    push_digits(&mut out, secs as u64, 10);
    assert(out@ =~= spec_dec(secs as nat));
    out
}

/// What the page persists after a clock event.
#[derive(PartialEq, Eq, Structural)]
pub enum RtcStore {
    /// Nothing changes in storage.
    Keep,
    /// Store a new anchor: the current wall-clock time and these seconds.
    Anchor(u32),
    /// The battery was switched on: store the flag "1" and the anchor.
    BatteryOn(u32),
    /// The battery was switched off: store the flag "0" and forget the anchor.
    BatteryOff,
}

/// The effects of a clock event outside the clock itself.
pub struct RtcUpdate {
    /// The time to load into the attached DS1307, if any.
    pub device_time: Option<(u8, u8, u8)>,
    /// What to persist.
    pub store: RtcStore,
}

/// The RTC panel's clock. With the battery on, the simulated DS1307
/// advances with wall-clock time and survives page reloads and Run
/// boundaries through a stored anchor; with it off, the RTC restarts at
/// 00:00:00 on each Run. Times are measured from the anchor: every event
/// but [`RtcClock::tick`] re-anchors the clock at the moment it happens,
/// and the caller passes the whole seconds elapsed since the last anchor.
pub struct RtcClock {
    /// Whether the battery keeps the clock running across Runs.
    pub battery: bool,
    /// The clock's reading, in seconds, at the last anchor.
    pub anchor_secs: u32,
    /// The time the panel shows.
    pub display: (u8, u8, u8),
}

/// The time shown `elapsed` seconds after an anchor of `anchor` seconds.
pub open spec fn time_after(anchor: u32, elapsed: int) -> (u8, u8, u8) {
    spec_secs_to_hms(spec_rtc_advance(anchor as int, elapsed) as nat)
}

impl RtcClock {
    /// The clock when the page opens, from the stored battery flag and
    /// anchor: the anchored time advanced by `elapsed_s` with the battery
    /// on, else midnight.
    pub fn restore(battery: bool, anchor_secs: u32, elapsed_s: i64) -> (c: RtcClock)
        ensures
            c.battery == battery,
            c.anchor_secs == anchor_secs,
            c.display == if battery { time_after(anchor_secs, elapsed_s as int) } else { (0u8, 0u8, 0u8) },
    {
        let display = if battery {
            secs_to_hms(rtc_advance(anchor_secs, elapsed_s))
        } else {
            (0, 0, 0)
        };
        RtcClock { battery, anchor_secs, display }
    }

    /// A Run starts and a fresh DS1307 is attached. Battery on: the clock
    /// advances from its anchor, re-anchors there, loads the device and is
    /// persisted. Battery off: it restarts at midnight (the DS1307 default)
    /// and nothing is stored.
    pub fn start_run(&mut self, elapsed_s: i64) -> (u: RtcUpdate)
        ensures
            final(self).battery == old(self).battery,
            old(self).battery ==> {
                let secs = spec_rtc_advance(old(self).anchor_secs as int, elapsed_s as int);
                &&& final(self).anchor_secs == secs
                &&& final(self).display == spec_secs_to_hms(secs as nat)
                &&& u.device_time == Some(final(self).display)
                &&& u.store == RtcStore::Anchor(secs as u32)
            },
            !old(self).battery ==> {
                &&& final(self).anchor_secs == 0
                &&& final(self).display == (0u8, 0u8, 0u8)
                &&& u.device_time is None
                &&& u.store == RtcStore::Keep
            },
    {
        if self.battery {
            let secs = rtc_advance(self.anchor_secs, elapsed_s);
            let hms = secs_to_hms(secs);
            self.anchor_secs = secs;
            self.display = hms;
            RtcUpdate { device_time: Some(hms), store: RtcStore::Anchor(secs) }
        } else {
            self.anchor_secs = 0;
            self.display = (0, 0, 0);
            RtcUpdate { device_time: None, store: RtcStore::Keep }
        }
    }

    /// The once-a-second wall-clock tick: with the battery on, the display
    /// and the device follow the anchored clock; with it off nothing moves.
    /// Returns the time to load into the device.
    pub fn tick(&mut self, elapsed_s: i64) -> (t: Option<(u8, u8, u8)>)
        ensures
            final(self).battery == old(self).battery,
            final(self).anchor_secs == old(self).anchor_secs,
            old(self).battery ==> final(self).display == time_after(old(self).anchor_secs, elapsed_s as int)
                && t == Some(final(self).display),
            !old(self).battery ==> final(self).display == old(self).display && t is None,
    {
        if self.battery {
            let hms = secs_to_hms(rtc_advance(self.anchor_secs, elapsed_s));
            self.display = hms;
            Some(hms)
        } else {
            None
        }
    }

    /// The user set a time in the panel: the device takes it, the clock
    /// re-anchors there, and with the battery on the anchor is persisted.
    pub fn set_time(&mut self, h: u8, m: u8, s: u8) -> (u: RtcUpdate)
        ensures
            final(self).battery == old(self).battery,
            final(self).anchor_secs == spec_hms_to_secs(h as nat, m as nat, s as nat),
            final(self).display == (h, m, s),
            u.device_time == Some((h, m, s)),
            u.store == if old(self).battery {
                RtcStore::Anchor(final(self).anchor_secs)
            } else {
                RtcStore::Keep
            },
    {
        let secs = hms_to_secs(h, m, s);
        self.anchor_secs = secs;
        self.display = (h, m, s);
        let store = if self.battery { RtcStore::Anchor(secs) } else { RtcStore::Keep };
        RtcUpdate { device_time: Some((h, m, s)), store }
    }

    /// The battery checkbox changed: the clock re-anchors at the displayed
    /// time; switching on persists the flag and the anchor, switching off
    /// persists the flag and forgets the anchor.
    pub fn toggle_battery(&mut self, on: bool) -> (u: RtcUpdate)
        ensures
            final(self).battery == on,
            final(self).display == old(self).display,
            final(self).anchor_secs == spec_hms_to_secs(
                old(self).display.0 as nat,
                old(self).display.1 as nat,
                old(self).display.2 as nat,
            ),
            u.device_time is None,
            u.store == if on {
                RtcStore::BatteryOn(final(self).anchor_secs)
            } else {
                RtcStore::BatteryOff
            },
    {
        let (h, m, s) = self.display;
        let secs = hms_to_secs(h, m, s);
        self.anchor_secs = secs;
        self.battery = on;
        let store = if on { RtcStore::BatteryOn(secs) } else { RtcStore::BatteryOff };
        RtcUpdate { device_time: None, store }
    }

    /// The run loop read the device's registers: the panel shows them.
    pub fn show_device_time(&mut self, h: u8, m: u8, s: u8)
        ensures
            final(self).battery == old(self).battery,
            final(self).anchor_secs == old(self).anchor_secs,
            final(self).display == (h, m, s),
    {
        self.display = (h, m, s);
    }
}

/// With the battery on, a Run boundary does not disturb the clock: the
/// time shown `e2` seconds after a Run re-anchored the clock `e1` seconds
/// past its old anchor is the time `e1 + e2` seconds past the old anchor.
pub proof fn lemma_run_keeps_time(anchor: u32, e1: int, e2: int)
    ensures
        0 <= spec_rtc_advance(anchor as int, e1) < SECS_PER_DAY,
        time_after(spec_rtc_advance(anchor as int, e1) as u32, e2) == time_after(anchor, e1 + e2),
{
    lemma_advance_compose(anchor as int, e1, e2);
}

/// Re-anchoring at a valid time loses nothing: right after setting the
/// clock to (h, m, s), or toggling the battery while it shows (h, m, s),
/// the clock reads (h, m, s).
pub proof fn lemma_reanchor_shows_time(h: u8, m: u8, s: u8)
    requires
        h < 24,
        m < 60,
        s < 60,
    ensures
        time_after(spec_hms_to_secs(h as nat, m as nat, s as nat) as u32, 0) == (h, m, s),
{
    lemma_hms_round_trip(h as nat, m as nat, s as nat);
    let t = spec_hms_to_secs(h as nat, m as nat, s as nat);
    assert(t % 86400 == t);
}

} // verus!
