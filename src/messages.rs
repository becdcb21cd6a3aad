//! The lines a session prints around its countdowns.
use vstd::prelude::*;
use crate::clock::{decimal, push_decimal};
use crate::session::{Config, Interval, IntervalKind};

verus! {

/// The label drawn in front of an interval's clock.
pub open spec fn label_spec(kind: IntervalKind) -> Seq<char> {
    match kind {
        IntervalKind::Focus => "Focus"@,
        IntervalKind::ShortBreak => "Break"@,
        IntervalKind::LongBreak => "Long break"@,
    }
}

/// The label of an interval kind: `Focus`, `Break` or `Long break`.
pub fn label(kind: IntervalKind) -> (r: &'static str)
    ensures
        r@ == label_spec(kind),
{
    match kind {
        IntervalKind::Focus => "Focus",
        IntervalKind::ShortBreak => "Break",
        IntervalKind::LongBreak => "Long break",
    }
}

/// The line that opens a run, naming its settings.
pub fn summary_line(cfg: &Config) -> (r: String)
    ensures
        r@ == "Run with focus="@ + decimal(cfg.focus_min as nat) + "m, break-min="@ + decimal(
            cfg.break_min as nat,
        ) + "m, cycles="@ + decimal(cfg.cycles as nat),
{
    let mut out = String::from_str("Run with focus=");
    push_decimal(&mut out, cfg.focus_min);
    out.append("m, break-min=");
    push_decimal(&mut out, cfg.break_min);
    out.append("m, cycles=");
    push_decimal(&mut out, cfg.cycles);
    out
}

/// The banner printed before an interval of a run of `cycles` sessions:
/// one before each focus session, giving its number, none before a break.
pub fn announcement(iv: &Interval, cycles: u64) -> (r: Option<String>)
    ensures
        iv.kind == IntervalKind::Focus ==> r is Some && r->Some_0@ == "\n=== Session "@ + decimal(
            iv.session as nat,
        ) + "/"@ + decimal(cycles as nat) + " ==="@,
        iv.kind != IntervalKind::Focus ==> r is None,
{
    match iv.kind {
        IntervalKind::Focus => {
            let mut out = String::from_str("\n=== Session ");
            push_decimal(&mut out, iv.session);
            out.append("/");
            push_decimal(&mut out, cycles);
            out.append(" ===");
            Some(out)
        },
        _ => None,
    }
}

/// The line printed once an interval's countdown is over.
pub fn acknowledgment(iv: &Interval) -> (r: &'static str)
    ensures
        iv.kind == IntervalKind::Focus ==> r@ == "\u{2705} Focus done"@,
        iv.kind == IntervalKind::ShortBreak ==> r@ == "\u{2615} Break over"@,
        iv.kind == IntervalKind::LongBreak ==> r@ == "\u{2615} Long break over"@,
{
    match iv.kind {
        IntervalKind::Focus => "\u{2705} Focus done",
        IntervalKind::ShortBreak => "\u{2615} Break over",
        IntervalKind::LongBreak => "\u{2615} Long break over",
    }
}

/// The line printed once the whole run is over.
pub fn closing_line() -> (r: &'static str)
    ensures
        r@ == "\n\u{1F389} All sessions done. Nice work."@,
{
    "\n\u{1F389} All sessions done. Nice work."
}

} // verus!
