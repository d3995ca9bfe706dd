//! The report of the one-shot `status` command.

use vstd::prelude::*;
use crate::analysis::{Analysis, status_text_of};
use crate::metrics::{NodeMetrics, ProbeResult};
use crate::text::{
    decimal, decimal_string, pad_right, plus_signed_decimal, push_decimal, push_padded,
    push_plus_signed_decimal,
};

verus! {

/// The report printed by `status`: a line per node, then the status line,
/// which goes to the error stream (and the exit code is 1) when a problem
/// was found.
pub struct StatusReport {
    pub target_line: String,
    pub reference_line: String,
    pub status_line: String,
    pub is_problem: bool,
}

/// A node line: `label`, the URL padded to 45 characters, the slot padded
/// to 12, and the response time.
pub open spec fn node_line(label: Seq<char>, m: NodeMetrics) -> Seq<char> {
    label + pad_right(m.node_url@, 45) + "  slot="@ + pad_right(decimal(m.slot as nat), 12)
        + "  rtt="@ + decimal(m.rtt_ms as nat) + "ms"@
}

/// The label of the target's line.
pub open spec fn target_label() -> Seq<char> {
    "  target    "@
}

/// The label of the reference's line.
pub open spec fn reference_label() -> Seq<char> {
    "  reference "@
}

/// The status line: the signed slot delta, the target's response time and
/// the status text.
pub open spec fn status_line_text(a: Analysis) -> Seq<char> {
    "delta="@ + plus_signed_decimal(a.slot_delta as int) + "   target_rtt="@ + decimal(
        a.target_rtt_ms as nat,
    ) + "ms   статус="@ + status_text_of(a)
}

fn node_line_string(label: &str, m: &NodeMetrics) -> (s: String)
    ensures
        s@ == node_line(label@, *m),
{
    let mut s = String::from_str(label);
    push_padded(&mut s, m.node_url.as_str(), 45);
    s.append("  slot=");
    let slot = decimal_string(m.slot);
    push_padded(&mut s, slot.as_str(), 12);
    s.append("  rtt=");
    push_decimal(&mut s, m.rtt_ms);
    s.append("ms");
    assert(s@ =~= node_line(label@, *m));
    s
}

/// The report of `status` for one probe and its analysis.
pub fn status_report(probe: &ProbeResult, analysis: &Analysis) -> (r: StatusReport)
    ensures
        r.target_line@ == node_line(target_label(), probe.target),
        r.reference_line@ == node_line(reference_label(), probe.reference),
        r.status_line@ == status_line_text(*analysis),
        r.is_problem == analysis.needs_alert,
{
    let target_line = node_line_string("  target    ", &probe.target);
    let reference_line = node_line_string("  reference ", &probe.reference);
    let mut status_line = String::from_str("delta=");
    push_plus_signed_decimal(&mut status_line, analysis.slot_delta);
    status_line.append("   target_rtt=");
    push_decimal(&mut status_line, analysis.target_rtt_ms);
    status_line.append("ms   статус=");
    let status = analysis.status_text();
    status_line.append(status.as_str());
    assert(status_line@ =~= status_line_text(*analysis));
    StatusReport { target_line, reference_line, status_line, is_problem: analysis.needs_alert }
}

} // verus!
