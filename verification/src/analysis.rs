//! Analysis of one probe: how far the target lags behind the reference and
//! whether that, or its response time, calls for an alert.

use vstd::prelude::*;
use crate::config::Config;
use crate::metrics::ProbeResult;
use crate::text::{decimal, push_decimal, push_signed_decimal, signed_decimal};

verus! {

/// The outcome of analysing one probe.
#[derive(Debug, Clone)]
pub struct Analysis {
    /// `target_slot - reference_slot`; negative when the target is behind.
    pub slot_delta: i64,
    /// Response time of the target in milliseconds.
    pub target_rtt_ms: u64,
    /// Response time of the reference in milliseconds.
    pub reference_rtt_ms: u64,
    /// Whether the target lags more than the threshold allows.
    pub is_slot_lagging: bool,
    /// Whether the target answered slower than the threshold allows.
    pub is_rtt_high: bool,
    /// Whether an alert is due: `is_slot_lagging || is_rtt_high`.
    pub needs_alert: bool,
}

/// The value of `x as i64`: `x` read as a two's-complement 64-bit number.
pub open spec fn as_i64(x: u64) -> int {
    if x <= i64::MAX {
        x as int
    } else {
        x - 0x1_0000_0000_0000_0000
    }
}

/// Whether the analysis can be computed without an arithmetic overflow:
/// the slot difference fits in an `i64`, and the threshold read as an
/// `i64` can be negated.
pub open spec fn analyzable(target_slot: u64, reference_slot: u64, slot_lag_threshold: u64) -> bool {
    &&& i64::MIN <= as_i64(target_slot) - as_i64(reference_slot) <= i64::MAX
    &&& as_i64(slot_lag_threshold) != i64::MIN
}

/// The problem part of the status text for a slot lag.
pub open spec fn lag_issue_text(slot_delta: int) -> Seq<char> {
    "отставание слотов: "@ + signed_decimal(slot_delta) + " (порог: нарушен)"@
}

/// The problem part of the status text for a high response time.
pub open spec fn rtt_issue_text(target_rtt_ms: nat, reference_rtt_ms: nat) -> Seq<char> {
    "высокий RTT: "@ + decimal(target_rtt_ms) + "ms (ref: "@ + decimal(reference_rtt_ms)
        + "ms)"@
}

/// The status text of an analysis: `OK` when no alert is due, else the
/// problems found, joined by `, `.
pub open spec fn status_text_of(a: Analysis) -> Seq<char> {
    if !a.needs_alert {
        "OK"@
    } else if a.is_slot_lagging && a.is_rtt_high {
        lag_issue_text(a.slot_delta as int) + ", "@ + rtt_issue_text(
            a.target_rtt_ms as nat,
            a.reference_rtt_ms as nat,
        )
    } else if a.is_slot_lagging {
        lag_issue_text(a.slot_delta as int)
    } else if a.is_rtt_high {
        rtt_issue_text(a.target_rtt_ms as nat, a.reference_rtt_ms as nat)
    } else {
        Seq::empty()
    }
}

proof fn lemma_as_i64(x: u64)
    ensures
        (x as i64) as int == as_i64(x),
{
    assert(x <= 0x7fff_ffff_ffff_ffffu64 ==> (x as i64) as int == x as int) by (bit_vector);
    assert(x > 0x7fff_ffff_ffff_ffffu64 ==> (x as i64) as int == x as int
        - 0x1_0000_0000_0000_0000int) by (bit_vector);
}

/// Whether `analyze` can be applied to `probe` and `cfg`.
pub fn can_analyze(probe: &ProbeResult, cfg: &Config) -> (b: bool)
    ensures
        b == analyzable(probe.target.slot, probe.reference.slot, cfg.slot_lag_threshold),
{
    proof {
        lemma_as_i64(probe.target.slot);
        lemma_as_i64(probe.reference.slot);
        lemma_as_i64(cfg.slot_lag_threshold);
    }
    let t = probe.target.slot as i64 as i128;
    let r = probe.reference.slot as i64 as i128;
    let threshold = cfg.slot_lag_threshold as i64;
    let delta = t - r;
    i64::MIN as i128 <= delta && delta <= i64::MAX as i128 && threshold != i64::MIN
}

/// Analyses one probe against the thresholds of `cfg`.
pub fn analyze(probe: &ProbeResult, cfg: &Config) -> (a: Analysis)
    requires
        analyzable(probe.target.slot, probe.reference.slot, cfg.slot_lag_threshold),
    ensures
        a.slot_delta == as_i64(probe.target.slot) - as_i64(probe.reference.slot),
        a.target_rtt_ms == probe.target.rtt_ms,
        a.reference_rtt_ms == probe.reference.rtt_ms,
        a.is_slot_lagging == (a.slot_delta < -as_i64(cfg.slot_lag_threshold)),
        a.is_rtt_high == (probe.target.rtt_ms > cfg.rtt_threshold_ms),
        a.needs_alert == (a.is_slot_lagging || a.is_rtt_high),
{
    proof {
        lemma_as_i64(probe.target.slot);
        lemma_as_i64(probe.reference.slot);
        lemma_as_i64(cfg.slot_lag_threshold);
    }
    let slot_delta = probe.target.slot as i64 - probe.reference.slot as i64;
    let is_slot_lagging = slot_delta < -(cfg.slot_lag_threshold as i64);
    let is_rtt_high = probe.target.rtt_ms > cfg.rtt_threshold_ms;
    Analysis {
        slot_delta,
        target_rtt_ms: probe.target.rtt_ms,
        reference_rtt_ms: probe.reference.rtt_ms,
        is_slot_lagging,
        is_rtt_high,
        needs_alert: is_slot_lagging || is_rtt_high,
    }
}

fn push_lag_issue(out: &mut String, slot_delta: i64)
    ensures
        final(out)@ == old(out)@ + lag_issue_text(slot_delta as int),
{
    out.append("отставание слотов: ");
    push_signed_decimal(out, slot_delta);
    out.append(" (порог: нарушен)");
    assert(out@ =~= old(out)@ + lag_issue_text(slot_delta as int));
}

fn push_rtt_issue(out: &mut String, target_rtt_ms: u64, reference_rtt_ms: u64)
    ensures
        final(out)@ == old(out)@ + rtt_issue_text(target_rtt_ms as nat, reference_rtt_ms as nat),
{
    out.append("высокий RTT: ");
    push_decimal(out, target_rtt_ms);
    out.append("ms (ref: ");
    push_decimal(out, reference_rtt_ms);
    out.append("ms)");
    assert(out@ =~= old(out)@ + rtt_issue_text(target_rtt_ms as nat, reference_rtt_ms as nat));
}

impl Analysis {
    /// A human-readable description of the problems found, or `OK`.
    pub fn status_text(&self) -> (s: String)
        ensures
            s@ == status_text_of(*self),
    {
        if !self.needs_alert {
            return String::from_str("OK");
        }
        let mut s = String::new();
        if self.is_slot_lagging {
            push_lag_issue(&mut s, self.slot_delta);
        }
        if self.is_rtt_high {
            if self.is_slot_lagging {
                s.append(", ");
            }
            push_rtt_issue(&mut s, self.target_rtt_ms, self.reference_rtt_ms);
        }
        assert(s@ =~= status_text_of(*self));
        s
    }
}

/// The slot threshold is strict and counts slots behind: for slots and a
/// threshold below `2^63`, the target counts as lagging exactly when it is
/// more than `slot_lag_threshold` slots behind the reference, and the slot
/// delta is `target_slot - reference_slot`.
pub proof fn lagging_iff_behind_by_more_than_threshold(
    target_slot: u64,
    reference_slot: u64,
    slot_lag_threshold: u64,
)
    requires
        target_slot <= i64::MAX,
        reference_slot <= i64::MAX,
        slot_lag_threshold <= i64::MAX,
    ensures
        analyzable(target_slot, reference_slot, slot_lag_threshold),
        as_i64(target_slot) - as_i64(reference_slot) == target_slot - reference_slot,
        (as_i64(target_slot) - as_i64(reference_slot) < -as_i64(slot_lag_threshold)) <==> (
        reference_slot - target_slot > slot_lag_threshold),
{
}

/// The status text is `OK` exactly when no alert is due, for every analysis
/// whose `needs_alert` is `is_slot_lagging || is_rtt_high` (as `analyze`
/// gives it).
pub proof fn status_ok_iff_no_alert(a: Analysis)
    requires
        a.needs_alert == (a.is_slot_lagging || a.is_rtt_high),
    ensures
        (status_text_of(a) == "OK"@) <==> !a.needs_alert,
{
    reveal_strlit("OK");
    reveal_strlit("отставание слотов: ");
    reveal_strlit("высокий RTT: ");
    if a.needs_alert {
        let t = status_text_of(a);
        if a.is_slot_lagging {
            assert(t[0] == "отставание слотов: "@[0]);
        } else {
            assert(t[0] == "высокий RTT: "@[0]);
        }
        assert(t[0] != "OK"@[0]);
    }
}

/// The status text names exactly the violated conditions: for an analysis
/// whose `needs_alert` is `is_slot_lagging || is_rtt_high`, it is `OK` when
/// neither holds, holds the slot-lag part (the delta) when and only when
/// the node lags and the high-RTT part (both response times) when and only
/// when the response time is high, joined by `, ` when both hold.
pub proof fn status_text_names_exactly_the_violated_conditions(a: Analysis)
    requires
        a.needs_alert == (a.is_slot_lagging || a.is_rtt_high),
    ensures
        ({
            let lag = "отставание слотов: "@ + signed_decimal(a.slot_delta as int)
                + " (порог: нарушен)"@;
            let rtt = "высокий RTT: "@ + decimal(a.target_rtt_ms as nat) + "ms (ref: "@ + decimal(
                a.reference_rtt_ms as nat,
            ) + "ms)"@;
            let t = status_text_of(a);
            &&& a.is_slot_lagging && a.is_rtt_high ==> t == lag + ", "@ + rtt
            &&& a.is_slot_lagging && !a.is_rtt_high ==> t == lag
            &&& !a.is_slot_lagging && a.is_rtt_high ==> t == rtt
            &&& !a.is_slot_lagging && !a.is_rtt_high ==> t == "OK"@
        }),
{
    let lag = "отставание слотов: "@ + signed_decimal(a.slot_delta as int) + " (порог: нарушен)"@;
    let rtt = "высокий RTT: "@ + decimal(a.target_rtt_ms as nat) + "ms (ref: "@ + decimal(
        a.reference_rtt_ms as nat,
    ) + "ms)"@;
    let t = status_text_of(a);
    if a.is_slot_lagging && a.is_rtt_high {
        assert(t =~= lag + ", "@ + rtt);
    } else if a.is_slot_lagging {
        assert(t =~= lag);
    } else if a.is_rtt_high {
        assert(t =~= rtt);
    }
}

} // verus!
