//! The sampler's per-tick computations.
//!
//! Utilization values are carried as integers in hundredths of a
//! percentage point ("centipercent"): 10000 means 100%. The metrics
//! provider hands CPU readings already scaled to percent, so the shell
//! converts each per-core percentage to centipercent before calling in;
//! memory and swap usage are computed here from the provider's raw
//! counters. Fractions are truncated, never rounded, so 99.5% displays
//! as 99.

use vstd::prelude::*;

use crate::config::Config;
use crate::state::Message;

verus! {

/// The latest sampled utilization of each metric, in centipercent.
///
/// A value is stale rather than cleared while its metric is disabled:
/// updates simply stop arriving for it.
#[derive(Debug, Clone, Copy, PartialEq, Eq, Structural)]
pub struct UsageInfo {
    pub cpu: u64,
    pub memory: u64,
    pub swap: u64,
}

impl Default for UsageInfo {
    /// Before the first sample arrives every metric reads zero.
    fn default() -> (u: UsageInfo)
        ensures
            u == (UsageInfo { cpu: 0, memory: 0, swap: 0 }),
    {
        UsageInfo { cpu: 0, memory: 0, swap: 0 }
    }
}

/// The sum of a sequence of readings.
pub open spec fn seq_sum(s: Seq<u64>) -> int
    decreases s.len(),
{
    if s.len() == 0 {
        0
    } else {
        seq_sum(s.drop_last()) + s.last()
    }
}

/// The arithmetic mean of the per-core readings, truncated; absent when
/// there are no cores to average over.
pub open spec fn spec_cpu_mean(s: Seq<u64>) -> Option<u64> {
    if s.len() == 0 {
        Option::None
    } else {
        Option::Some((seq_sum(s) / (s.len() as int)) as u64)
    }
}

/// Average the per-core CPU readings (each in centipercent).
pub fn cpu_mean(per_core: &Vec<u64>) -> (r: Option<u64>)
    ensures
        r == spec_cpu_mean(per_core@),
{
    if per_core.len() == 0 {
        return Option::None;
    }
    let mut acc: u128 = 0;
    let mut i: usize = 0;
    while i < per_core.len()
        invariant
            i <= per_core@.len(),
            acc == seq_sum(per_core@.take(i as int)),
            acc <= i * 0xffff_ffff_ffff_ffffu128,
        decreases per_core@.len() - i,
    {
        proof {
            assert(per_core@.take(i + 1).drop_last() =~= per_core@.take(i as int));
        }
        acc = acc + per_core[i] as u128;
        i = i + 1;
    }
    proof {
        assert(per_core@.take(per_core@.len() as int) =~= per_core@);
    }
    let n: u128 = per_core.len() as u128;
    let q: u128 = acc / n;
    proof {
        assert(q <= 0xffff_ffff_ffff_ffffu128) by (nonlinear_arith)
            requires
                q == (acc as int) / (n as int),
                1 <= n as int,
                acc as int <= (n as int) * 0xffff_ffff_ffff_ffff,
        ;
    }
    Option::Some(q as u64)
}

/// The used share of a resource, in centipercent, truncated.
///
/// `unused` is the provider's "available memory" or "free swap"
/// counter. A zero total (no swap configured) has no defined usage:
/// the result is absent and the previously stored value stays as it
/// was. A provider reporting more unused than total clamps to 0.
pub open spec fn spec_usage_centipercent(total: u64, unused: u64) -> Option<u64> {
    if total == 0 {
        Option::None
    } else if unused >= total {
        Option::Some(0u64)
    } else {
        Option::Some((((total - unused) * 10000) / (total as int)) as u64)
    }
}

/// Compute `1 - unused/total` in centipercent, as
/// `spec_usage_centipercent` states it.
pub fn usage_centipercent(total: u64, unused: u64) -> (r: Option<u64>)
    ensures
        r == spec_usage_centipercent(total, unused),
        r matches Option::Some(v) ==> v <= 10000,
{
    if total == 0 {
        Option::None
    } else if unused >= total {
        Option::Some(0)
    } else {
        let used: u64 = total - unused;
        let q: u128 = (used as u128) * 10000 / (total as u128);
        proof {
            assert(q <= 10000) by (nonlinear_arith)
                requires
                    q == ((used as int) * 10000) / (total as int),
                    0 < total as int,
                    used as int <= total as int,
            ;
        }
        Option::Some(q as u64)
    }
}

/// Whether this tick must query the provider's memory counters at all:
/// one refresh serves both the memory and the swap metric.
pub fn needs_memory_refresh(config: &Config) -> (r: bool)
    ensures
        r == (config.memory_enabled || config.swap_enabled),
{
    config.memory_enabled || config.swap_enabled
}

/// The usage-update message one sampler tick emits.
///
/// A disabled metric is skipped outright: its field is absent and the
/// stored value stays stale. An enabled metric can still come out
/// absent when it has no defined value this tick — no cores reported,
/// or a zero total (no swap configured).
pub open spec fn spec_tick_update(
    config: Config,
    per_core: Seq<u64>,
    mem_total: u64,
    mem_available: u64,
    swap_total: u64,
    swap_free: u64,
) -> Message {
    Message::UsageUpdate {
        cpu: if config.cpu_enabled { spec_cpu_mean(per_core) } else { Option::None },
        mem: if config.memory_enabled {
            spec_usage_centipercent(mem_total, mem_available)
        } else {
            Option::None
        },
        swap: if config.swap_enabled {
            spec_usage_centipercent(swap_total, swap_free)
        } else {
            Option::None
        },
    }
}

/// Assemble one tick's readings into the usage-update event. Readings
/// handed in for disabled metrics are ignored, so the shell may pass
/// zeros (or an empty core list) for whatever it skipped querying.
pub fn tick_update(
    config: &Config,
    per_core: &Vec<u64>,
    mem_total: u64,
    mem_available: u64,
    swap_total: u64,
    swap_free: u64,
) -> (m: Message)
    ensures
        m == spec_tick_update(*config, per_core@, mem_total, mem_available, swap_total, swap_free),
{
    let cpu: Option<u64> = if config.cpu_enabled {
        cpu_mean(per_core)
    } else {
        Option::None
    };
    let mem: Option<u64> = if config.memory_enabled {
        usage_centipercent(mem_total, mem_available)
    } else {
        Option::None
    };
    let swap: Option<u64> = if config.swap_enabled {
        usage_centipercent(swap_total, swap_free)
    } else {
        Option::None
    };
    Message::UsageUpdate { cpu, mem, swap }
}

} // verus!
