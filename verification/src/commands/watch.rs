//! The decisions of the `watch` daemon in one tick: whether an alert is due
//! and allowed by the cooldown, and the texts it logs and sends.

use vstd::prelude::*;
use crate::analysis::{Analysis, status_text_of};
use crate::config::Config;
use crate::metrics::{Elapsed, elapsed_nanos};
use crate::text::{decimal, plus_signed_decimal, push_decimal, push_plus_signed_decimal};

verus! {

/// What a tick does after analysing a probe.
#[derive(Debug, Clone, Copy, PartialEq, Eq)]
pub enum AlertDecision {
    /// Nothing is wrong: no alert.
    NoAlert,
    /// An alert is due, but the previous one is too recent; the next one is
    /// allowed in `remaining_secs` whole seconds.
    Suppressed { remaining_secs: u64 },
    /// An alert is due and allowed: generate and send it.
    Send,
}

/// The decision for an analysis, given the cooldown in seconds and the time
/// since the last alert sent (`None` when none was sent yet): no alert when
/// none is due; suppressed while less than the cooldown has passed, with the
/// whole seconds left (what `saturating_sub(..).as_secs()` gives); sent
/// otherwise.
pub open spec fn alert_decision(
    needs_alert: bool,
    cooldown_secs: u64,
    since_last_alert: Option<Elapsed>,
) -> AlertDecision {
    if !needs_alert {
        AlertDecision::NoAlert
    } else {
        match since_last_alert {
            Some(e) => if elapsed_nanos(e) < cooldown_secs * 1_000_000_000 {
                AlertDecision::Suppressed {
                    remaining_secs: ((cooldown_secs * 1_000_000_000 - elapsed_nanos(e))
                        / 1_000_000_000) as u64,
                }
            } else {
                AlertDecision::Send
            },
            None => AlertDecision::Send,
        }
    }
}

/// The alert sent when the model could not write one.
pub open spec fn fallback_alert(target_url: Seq<char>, a: Analysis) -> Seq<char> {
    "ALERT "@ + target_url + ": "@ + status_text_of(a)
}

/// The alert to send: the model's text when it wrote one, the fallback
/// otherwise.
pub open spec fn chosen_alert(generated: Option<Seq<char>>, target_url: Seq<char>, a: Analysis) -> Seq<
    char,
> {
    match generated {
        Some(t) => t,
        None => fallback_alert(target_url, a),
    }
}

/// The line logged on every tick.
pub open spec fn tick_line_text(a: Analysis) -> Seq<char> {
    "tick: delta="@ + plus_signed_decimal(a.slot_delta as int) + " target_rtt="@ + decimal(
        a.target_rtt_ms as nat,
    ) + "ms status="@ + status_text_of(a)
}

/// Decides whether this tick sends an alert: only when one is due and no
/// alert was sent within the cooldown of `cfg`.
pub fn decide_alert(analysis: &Analysis, since_last_alert: Option<Elapsed>, cfg: &Config) -> (d:
    AlertDecision)
    ensures
        d == alert_decision(analysis.needs_alert, cfg.alert_cooldown_secs, since_last_alert),
{
    if !analysis.needs_alert {
        return AlertDecision::NoAlert;
    }
    match since_last_alert {
        None => AlertDecision::Send,
        Some(e) => {
            let elapsed: u128 = e.secs as u128 * 1_000_000_000 + e.nanos as u128;
            let cooldown: u128 = cfg.alert_cooldown_secs as u128 * 1_000_000_000;
            if elapsed < cooldown {
                let remaining: u128 = (cooldown - elapsed) / 1_000_000_000;
                AlertDecision::Suppressed { remaining_secs: remaining as u64 }
            } else {
                AlertDecision::Send
            }
        },
    }
}

/// When the last alert was sent, after a tick that tried to send one and
/// finished at `now`: `now` when the message went out, else unchanged.
pub open spec fn restarted_last<T>(sent_ok: bool, previous: Option<T>, now: T) -> Option<T> {
    if sent_ok {
        Some(now)
    } else {
        previous
    }
}

/// When the last alert was sent, after a tick that tried to send one and
/// finished at `now`: the cooldown restarts exactly when the message went
/// out.
pub fn next_last_alert<T>(sent_ok: bool, previous: Option<T>, now: T) -> (r: Option<T>)
    ensures
        r == restarted_last(sent_ok, previous, now),
{
    if sent_ok {
        Some(now)
    } else {
        previous
    }
}

/// The alert text used when the model fails: `ALERT <url>: <status>`.
pub fn fallback_alert_text(target_url: &str, analysis: &Analysis) -> (s: String)
    ensures
        s@ == fallback_alert(target_url@, *analysis),
{
    let mut s = String::from_str("ALERT ");
    s.append(target_url);
    s.append(": ");
    let status = analysis.status_text();
    s.append(status.as_str());
    assert(s@ =~= fallback_alert(target_url@, *analysis));
    s
}

/// The alert to send: `generated` (the model's text) when there is one,
/// else the fallback text for the node at `target_url`.
pub fn alert_text_or_fallback(generated: Option<String>, target_url: &str, analysis: &Analysis) -> (s:
    String)
    ensures
        s@ == chosen_alert(generated.deep_view(), target_url@, *analysis),
{
    match generated {
        Some(t) => t,
        None => fallback_alert_text(target_url, analysis),
    }
}

/// The line logged for a tick: signed slot delta, target response time and
/// status text.
pub fn tick_line(analysis: &Analysis) -> (s: String)
    ensures
        s@ == tick_line_text(*analysis),
{
    let mut s = String::from_str("tick: delta=");
    push_plus_signed_decimal(&mut s, analysis.slot_delta);
    s.append(" target_rtt=");
    push_decimal(&mut s, analysis.target_rtt_ms);
    s.append("ms status=");
    let status = analysis.status_text();
    s.append(status.as_str());
    assert(s@ =~= tick_line_text(*analysis));
    s
}

/// The cooldown law: a tick sends an alert exactly when one is due and
/// either none was sent before or at least the cooldown has passed since
/// the last one; a suppressed alert never waits longer than the cooldown.
pub proof fn alerts_respect_cooldown(
    needs_alert: bool,
    cooldown_secs: u64,
    since_last_alert: Option<Elapsed>,
)
    ensures
        (alert_decision(needs_alert, cooldown_secs, since_last_alert) == AlertDecision::Send) <==> (
        needs_alert && match since_last_alert {
            None => true,
            Some(e) => elapsed_nanos(e) >= cooldown_secs * 1_000_000_000,
        }),
        alert_decision(needs_alert, cooldown_secs, since_last_alert) matches AlertDecision::Suppressed {
            remaining_secs,
        } ==> remaining_secs <= cooldown_secs,
        (alert_decision(needs_alert, cooldown_secs, since_last_alert) == AlertDecision::NoAlert)
            <==> !needs_alert,
{
    if let Some(e) = since_last_alert {
        if needs_alert && elapsed_nanos(e) < cooldown_secs * 1_000_000_000 {
            let left = cooldown_secs * 1_000_000_000 - elapsed_nanos(e);
            assert(left <= cooldown_secs * 1_000_000_000);
            assert(left / 1_000_000_000 <= cooldown_secs) by (nonlinear_arith)
                requires
                    0 <= left <= cooldown_secs * 1_000_000_000,
            ;
        }
    }
}

/// One tick of the daemon as the cooldown sees it: when it took the alert
/// decision and when it finished sending (nanoseconds on a monotonic
/// clock), whether an alert was due, and whether the message went out if
/// one was sent.
pub struct TickEvent {
    pub decided_at: int,
    pub sent_at: int,
    pub needs_alert: bool,
    pub delivered: bool,
}

/// A span of `d` nanoseconds, split as `Duration` splits it.
pub open spec fn elapsed_of(d: int) -> Elapsed {
    Elapsed { secs: (d / 1_000_000_000) as u64, nanos: (d % 1_000_000_000) as u32 }
}

/// The time since the last alert at `now`, as a tick measures it.
pub open spec fn since_last(last: Option<int>, now: int) -> Option<Elapsed> {
    match last {
        Some(l) => Some(elapsed_of(now - l)),
        None => None,
    }
}

/// Whether tick `t` sends an alert when the last one went out at `last`.
pub open spec fn tick_sends(last: Option<int>, t: TickEvent, cooldown_secs: u64) -> bool {
    alert_decision(t.needs_alert, cooldown_secs, since_last(last, t.decided_at))
        == AlertDecision::Send
}

/// When the last alert went out after the ticks `ticks`, starting with none:
/// a tick that sends restarts the cooldown when its message went out, any
/// other tick leaves it.
pub open spec fn last_alert_after(ticks: Seq<TickEvent>, cooldown_secs: u64) -> Option<int>
    decreases ticks.len(),
{
    if ticks.len() == 0 {
        None
    } else {
        let previous = last_alert_after(ticks.drop_last(), cooldown_secs);
        let t = ticks.last();
        if tick_sends(previous, t, cooldown_secs) {
            restarted_last(t.delivered, previous, t.sent_at)
        } else {
            previous
        }
    }
}

/// Whether tick `i` of `ticks` sent an alert that went out.
pub open spec fn delivered_alert(ticks: Seq<TickEvent>, i: int, cooldown_secs: u64) -> bool {
    &&& tick_sends(last_alert_after(ticks.take(i), cooldown_secs), ticks[i], cooldown_secs)
    &&& ticks[i].delivered
}

/// The times a monotonic clock gives a run of ticks: each tick sends after
/// it decides, the next tick decides after the previous one sent, and every
/// time fits in a `Duration` from the start.
pub open spec fn monotonic_ticks(ticks: Seq<TickEvent>) -> bool {
    &&& forall|i: int|
        0 <= i < ticks.len() ==> 0 <= #[trigger] ticks[i].decided_at <= ticks[i].sent_at
            < 18446744073709551616000000000
    &&& forall|i: int, j: int|
        0 <= i < j < ticks.len() ==> #[trigger] ticks[i].sent_at <= #[trigger] ticks[j].decided_at
}

proof fn lemma_last_alert_bounded(ticks: Seq<TickEvent>, k: int, cooldown_secs: u64)
    requires
        monotonic_ticks(ticks),
        0 < k <= ticks.len(),
    ensures
        last_alert_after(ticks.take(k), cooldown_secs) matches Some(l) ==> 0 <= l <= ticks[k
            - 1].sent_at,
    decreases k,
{
    let p = ticks.take(k);
    assert(p.drop_last() =~= ticks.take(k - 1));
    assert(p.last() == ticks[k - 1]);
    if k > 1 {
        lemma_last_alert_bounded(ticks, k - 1, cooldown_secs);
        assert(ticks[k - 2].sent_at <= ticks[k - 1].decided_at);
    } else {
        assert(ticks.take(0) =~= Seq::<TickEvent>::empty());
    }
}

proof fn lemma_last_alert_after_delivery(ticks: Seq<TickEvent>, i: int, k: int, cooldown_secs: u64)
    requires
        monotonic_ticks(ticks),
        0 <= i < k <= ticks.len(),
        delivered_alert(ticks, i, cooldown_secs),
    ensures
        last_alert_after(ticks.take(k), cooldown_secs) matches Some(l) && l >= ticks[i].sent_at,
    decreases k,
{
    let p = ticks.take(k);
    assert(p.drop_last() =~= ticks.take(k - 1));
    assert(p.last() == ticks[k - 1]);
    if k > i + 1 {
        lemma_last_alert_after_delivery(ticks, i, k - 1, cooldown_secs);
        assert(ticks[i].sent_at <= ticks[k - 1].decided_at);
    }
}

proof fn lemma_elapsed_of(d: int)
    requires
        0 <= d < 18446744073709551616000000000,
    ensures
        elapsed_nanos(elapsed_of(d)) == d,
{
    assert(d / 1_000_000_000 < 18446744073709551616);
    assert((d / 1_000_000_000) * 1_000_000_000 + d % 1_000_000_000 == d);
}

/// The cooldown over a run of ticks: starting with no alert sent, any two
/// alerts that went out were sent at least the cooldown apart, whatever the
/// ticks found and whichever sends failed.
pub proof fn delivered_alerts_respect_cooldown(
    ticks: Seq<TickEvent>,
    cooldown_secs: u64,
    i: int,
    j: int,
)
    requires
        monotonic_ticks(ticks),
        0 <= i < j < ticks.len(),
        delivered_alert(ticks, i, cooldown_secs),
        delivered_alert(ticks, j, cooldown_secs),
    ensures
        ticks[j].sent_at - ticks[i].sent_at >= cooldown_secs * 1_000_000_000,
{
    lemma_last_alert_after_delivery(ticks, i, j, cooldown_secs);
    lemma_last_alert_bounded(ticks, j, cooldown_secs);
    let l = last_alert_after(ticks.take(j), cooldown_secs)->Some_0;
    assert(ticks[j - 1].sent_at <= ticks[j].decided_at);
    lemma_elapsed_of(ticks[j].decided_at - l);
}

} // verus!
