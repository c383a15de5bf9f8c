//! Report layout of the cooler's display.
//!
//! A standard unit takes a 64-byte HID output report: byte 0 is the report
//! id 16, then mode, status bar, hundreds, tens, units and the alarm flag;
//! every later byte is zero. The SE variant sends no report id, so all of
//! its fields sit one byte further left.

use vstd::prelude::*;

verus! {

/// USB vendor id of the display.
pub const VID: u16 = 0x3633;

/// USB product id of the display.
pub const PID: u16 = 0x0004;

/// Length of one output report.
pub const REPORT_LEN: usize = 64;

/// Report id that a standard unit expects in byte 0.
pub const REPORT_ID: u8 = 16;

/// Mode byte: start-up animation.
pub const MODE_LOADING: u8 = 170;

/// Mode byte: temperature in degrees Celsius.
pub const MODE_TEMP_C: u8 = 19;

/// Mode byte: temperature in degrees Fahrenheit.
pub const MODE_TEMP_F: u8 = 35;

/// Mode byte: percentage (CPU usage).
pub const MODE_USAGE: u8 = 76;

/// Largest value the three digit cells can show.
pub const MAX_SHOWN: u16 = 999;

/// The value that the display shows for `v`: values above 999 are clamped.
pub open spec fn shown_value(v: u16) -> int {
    if v <= 999 { v as int } else { 999 }
}

/// Hundreds, tens and units of the shown value.
pub open spec fn spec_digits(v: u16) -> (u8, u8, u8) {
    let s = shown_value(v);
    (((s / 100) % 10) as u8, ((s / 10) % 10) as u8, (s % 10) as u8)
}

/// The six payload bytes: mode, bar, three digits and the alarm flag.
pub open spec fn payload(mode: u8, bar: u8, value: u16, alarm: bool) -> Seq<u8> {
    let (h, t, u) = spec_digits(value);
    seq![mode, bar, h, t, u, if alarm { 1u8 } else { 0u8 }]
}

/// Offset of the payload in a report: 0 for the SE variant, 1 otherwise.
pub open spec fn payload_offset(se: bool) -> int {
    if se { 0 } else { 1 }
}

/// The full report: the payload at its offset, the report id before it on a
/// standard unit, zeros everywhere else.
pub open spec fn spec_packet(mode: u8, bar: u8, value: u16, alarm: bool, se: bool) -> Seq<u8> {
    Seq::new(
        64,
        |i: int|
            if !se && i == 0 {
                REPORT_ID
            } else if payload_offset(se) <= i < payload_offset(se) + 6 {
                payload(mode, bar, value, alarm)[i - payload_offset(se)]
            } else {
                0u8
            },
    )
}

/// Splits a value into the three decimal digits that the display shows,
/// clamping it to 999 first.
pub fn digits(v: u16) -> (r: (u8, u8, u8))
    ensures
        r == spec_digits(v),
        r.0 < 10 && r.1 < 10 && r.2 < 10,
        100 * r.0 + 10 * r.1 + r.2 == shown_value(v),
{
    let v = if v <= MAX_SHOWN { v } else { MAX_SHOWN };
    let h = ((v / 100) % 10) as u8;
    let t = ((v / 10) % 10) as u8;
    let u = (v % 10) as u8;
    (h, t, u)
}

/// Builds one display report.
///
/// `mode` is the mode byte, `bar` the status-bar level (0 switches it off),
/// `value` the number to show (clamped to 999), `alarm` the over-temperature
/// flag and `se` selects the SE layout, which has no report id.
pub fn packet(mode: u8, bar: u8, value: u16, alarm: bool, se: bool) -> (p: [u8; 64])
    ensures
        p@ == spec_packet(mode, bar, value, alarm, se),
{
    let (h, t, u) = digits(value);
    let a: u8 = if alarm { 1 } else { 0 };
    let mut d: [u8; 64] = [0u8; 64];
    if se {
        d[0] = mode;
        d[1] = bar;
        d[2] = h;
        d[3] = t;
        d[4] = u;
        d[5] = a;
    } else {
        d[0] = REPORT_ID;
        d[1] = mode;
        d[2] = bar;
        d[3] = h;
        d[4] = t;
        d[5] = u;
        d[6] = a;
    }
    assert(d@ =~= spec_packet(mode, bar, value, alarm, se));
    d
}

/// The start-up report (loading animation), sent first after connecting.
pub fn init_packet(se: bool) -> (p: [u8; 64])
    ensures
        p@ == spec_packet(MODE_LOADING, 0, 0, false, se),
{
    packet(MODE_LOADING, 0, 0, false, se)
}

/// The SE layout is the standard layout shifted one byte to the left: the
/// standard report starts with the report id and each later byte of it is
/// the SE report's byte before it.
pub proof fn lemma_se_layout_is_shifted(mode: u8, bar: u8, value: u16, alarm: bool)
    ensures
        spec_packet(mode, bar, value, alarm, false)[0] == REPORT_ID,
        spec_packet(mode, bar, value, alarm, true)[63] == 0,
        forall|i: int|
            0 <= i < 63 ==> #[trigger] spec_packet(mode, bar, value, alarm, true)[i] == spec_packet(
                mode,
                bar,
                value,
                alarm,
                false,
            )[i + 1],
{
}

/// Whatever the layout, the three digit cells of a report read back as the
/// clamped value, and the mode, bar and alarm bytes hold what was asked.
pub proof fn lemma_report_reads_back(mode: u8, bar: u8, value: u16, alarm: bool, se: bool)
    ensures
        ({
            let p = spec_packet(mode, bar, value, alarm, se);
            let o = payload_offset(se);
            &&& p[o] == mode
            &&& p[o + 1] == bar
            &&& p[o + 2] < 10 && p[o + 3] < 10 && p[o + 4] < 10
            &&& 100 * p[o + 2] + 10 * p[o + 3] + p[o + 4] == shown_value(value)
            &&& p[o + 5] == (if alarm { 1u8 } else { 0u8 })
            &&& forall|i: int| o + 6 <= i < 64 ==> p[i] == 0
        }),
{
    let s = shown_value(value);
    assert(100 * ((s / 100) % 10) + 10 * ((s / 10) % 10) + s % 10 == s) by {
        assert(0 <= s <= 999);
    }
}

} // verus!
