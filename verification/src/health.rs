//! Health evaluation for the worker.
//!
//! The process exposes a health endpoint that combines three checks:
//! reachability of the persistence store, reachability of the downstream
//! consumer, and the liveness of the signal loop. The consumer check is
//! only performed while the loop reports itself running, so that startup
//! does not produce false negatives. The functions here decide the verdict
//! from the outcomes of those checks; performing the checks is the
//! embedding process's job.

use vstd::prelude::*;

verus! {

/// Outcome of evaluating the worker's health checks.
#[derive(Clone, Copy, Debug, PartialEq, Eq, Structural)]
pub enum HealthVerdict {
    /// Every check passed.
    Healthy,
    /// The persistence store did not answer the ping.
    StorageUnreachable,
    /// The downstream consumer was probed and reported unhealthy.
    ConsumerUnhealthy,
    /// The signal loop is not running.
    LoopNotRunning,
}

/// Whether the downstream consumer should be probed at all: it is probed
/// exactly while the signal loop reports itself running — and only once
/// the storage check has already passed, since a failed storage ping
/// settles the verdict by itself.
pub fn should_probe_consumer(storage_ok: bool, loop_running: bool) -> (probe: bool)
    ensures
        probe == (storage_ok && loop_running),
{
    storage_ok && loop_running
}

/// Combine the check outcomes into one verdict. `consumer_ok` carries the
/// consumer probe's outcome when it was performed, which it is exactly
/// when [`should_probe_consumer`] says so. Storage reachability is judged
/// first, then the consumer, then loop liveness.
pub fn evaluate_health(storage_ok: bool, loop_running: bool, consumer_ok: Option<bool>) -> (v:
    HealthVerdict)
    requires
        consumer_ok is Some <==> storage_ok && loop_running,
    ensures
        v == HealthVerdict::StorageUnreachable <==> !storage_ok,
        v == HealthVerdict::ConsumerUnhealthy <==> storage_ok && consumer_ok == Some(false),
        v == HealthVerdict::LoopNotRunning <==> storage_ok && !loop_running,
        v == HealthVerdict::Healthy <==> storage_ok && consumer_ok == Some(true),
{
    if !storage_ok {
        HealthVerdict::StorageUnreachable
    } else if loop_running {
        match consumer_ok {
            Some(true) => HealthVerdict::Healthy,
            _ => HealthVerdict::ConsumerUnhealthy,
        }
    } else {
        HealthVerdict::LoopNotRunning
    }
}

/// Whether a verdict maps to a successful response status.
pub fn verdict_is_success(v: HealthVerdict) -> (ok: bool)
    ensures
        ok <==> v == HealthVerdict::Healthy,
{
    match v {
        HealthVerdict::Healthy => true,
        _ => false,
    }
}

/// Whether `url` ends in the consumer's signal path segment.
pub open spec fn spec_suffix_signal(url: Seq<char>) -> bool {
    url.len() >= 7 && url.subrange(url.len() - 7, url.len() as int) == "/signal"@
}

/// `url` with every trailing signal path segment removed.
pub open spec fn spec_trim_signal(url: Seq<char>) -> Seq<char>
    decreases url.len(),
{
    if spec_suffix_signal(url) {
        spec_trim_signal(url.take(url.len() - 7))
    } else {
        url
    }
}

/// The consumer's health-probe URL derived from its signal endpoint URL:
/// the trailing signal path replaced by the health path.
pub open spec fn spec_health_url(url: Seq<char>) -> Seq<char> {
    spec_trim_signal(url) + "/healthz"@
}

/// Whether `s` ends in the consumer's signal path segment.
fn ends_with_signal(s: &str) -> (b: bool)
    ensures
        b == spec_suffix_signal(s@),
{
    let n = s.unicode_len();
    if n < 7 {
        return false;
    }
    let c0 = s.get_char(n - 7);
    let c1 = s.get_char(n - 6);
    let c2 = s.get_char(n - 5);
    let c3 = s.get_char(n - 4);
    let c4 = s.get_char(n - 3);
    let c5 = s.get_char(n - 2);
    let c6 = s.get_char(n - 1);
    let eq = c0 == '/' && c1 == 's' && c2 == 'i' && c3 == 'g' && c4 == 'n' && c5 == 'a' && c6
        == 'l';
    proof {
        reveal_strlit("/signal");
        let sub = s@.subrange(s@.len() - 7, s@.len() as int);
        assert(sub[0] == c0 && sub[1] == c1 && sub[2] == c2 && sub[3] == c3 && sub[4] == c4
            && sub[5] == c5 && sub[6] == c6);
        if eq {
            assert(sub =~= "/signal"@);
        }
    }
    eq
}

/// `s` with every trailing signal path segment removed.
fn trim_signal_suffix<'a>(s: &'a str) -> (r: &'a str)
    ensures
        r@ == spec_trim_signal(s@),
    decreases s@.len(),
{
    if ends_with_signal(s) {
        let n = s.unicode_len();
        trim_signal_suffix(s.substring_char(0, n - 7))
    } else {
        s
    }
}

/// Derive the consumer's health-probe URL from its configured signal
/// endpoint URL.
pub fn consumer_health_url(simulation_url: &str) -> (r: String)
    ensures
        r@ == spec_health_url(simulation_url@),
{
    let base = trim_signal_suffix(simulation_url);
    let mut r = String::from_str(base);
    r.append("/healthz");
    r
}

/// The response body reported for a verdict.
pub fn verdict_message(v: HealthVerdict) -> (msg: &'static str)
    ensures
        v == HealthVerdict::Healthy ==> msg@ == "ok"@,
        v == HealthVerdict::StorageUnreachable ==> msg@ == "mongo unreachable"@,
        v == HealthVerdict::ConsumerUnhealthy ==> msg@ == "simulation service unhealthy"@,
        v == HealthVerdict::LoopNotRunning ==> msg@ == "signal loop not running"@,
{
    match v {
        HealthVerdict::Healthy => "ok",
        HealthVerdict::StorageUnreachable => "mongo unreachable",
        HealthVerdict::ConsumerUnhealthy => "simulation service unhealthy",
        HealthVerdict::LoopNotRunning => "signal loop not running",
    }
}

} // verus!
