//! WakaTime heartbeat labels and the bounds of its retry queue.
use crate::config::{normalize_nonempty_or_default_string, spec_nonempty_or_default};
use crate::text::owned;
use vstd::prelude::*;

verus! {

pub const WAKATIME_QUEUE_CAPACITY_MIN: usize = 1;

pub const WAKATIME_QUEUE_CAPACITY_MAX: usize = 4096;

pub const WAKATIME_RETRY_DELAY_MIN_SECS: u64 = 1;

pub const WAKATIME_RETRY_DELAY_MAX_SECS: u64 = 3600;

pub const WAKATIME_RETRY_BACKOFF_MIN_SECS: u64 = 1;

pub const WAKATIME_RETRY_BACKOFF_MAX_SECS: u64 = 300;

pub const WAKATIME_RETRY_BACKOFF_MAX_ENTRIES: usize = 8;

/// Retry and queue tuning of the heartbeat sender.
#[derive(Debug, Clone, PartialEq, Eq)]
pub struct WakatimeRuntimeConfig {
    pub retry_backoff_secs: Vec<u64>,
    pub queue_capacity: usize,
    pub queue_retry_delay_secs: u64,
}

/// Project and language labels sent with each heartbeat.
#[derive(Debug, Clone, PartialEq, Eq)]
pub struct WakatimeMetadataConfig {
    pub project: String,
    pub language: String,
}

pub open spec fn clamp(v: int, lo: int, hi: int) -> int {
    if v < lo {
        lo
    } else if v > hi {
        hi
    } else {
        v
    }
}

pub open spec fn default_backoff() -> Seq<u64> {
    seq![2u64, 5u64, 10u64]
}

/// The non-zero delays, each clamped to 1..=300 seconds.
pub open spec fn clamped_backoff(v: Seq<u64>) -> Seq<u64>
    decreases v.len(),
{
    if v.len() == 0 {
        Seq::empty()
    } else {
        let rest = clamped_backoff(v.drop_last());
        if v.last() == 0 {
            rest
        } else {
            rest.push(
                clamp(
                    v.last() as int,
                    WAKATIME_RETRY_BACKOFF_MIN_SECS as int,
                    WAKATIME_RETRY_BACKOFF_MAX_SECS as int,
                ) as u64,
            )
        }
    }
}

/// The first eight clamped non-zero delays, or the default ladder when none is left.
pub open spec fn spec_normalized_backoff(v: Seq<u64>) -> Seq<u64> {
    let kept = clamped_backoff(v);
    if kept.len() == 0 {
        default_backoff()
    } else if kept.len() > WAKATIME_RETRY_BACKOFF_MAX_ENTRIES {
        kept.subrange(0, WAKATIME_RETRY_BACKOFF_MAX_ENTRIES as int)
    } else {
        kept
    }
}

fn default_wakatime_retry_backoff_secs() -> (r: Vec<u64>)
    ensures
        r@ == default_backoff(),
{
    let r = vec![2u64, 5u64, 10u64];
    assert(r@ =~= default_backoff());
    r
}

fn default_wakatime_queue_capacity() -> (r: usize)
    ensures
        r == 512,
{
    512
}

fn default_wakatime_queue_retry_delay_secs() -> (r: u64)
    ensures
        r == 30,
{
    30
}

fn default_wakatime_project() -> (r: String)
    ensures
        r@ == "focustime"@,
{
    owned("focustime")
}

fn default_wakatime_language() -> (r: String)
    ensures
        r@ == "Pomodoro"@,
{
    owned("Pomodoro")
}

fn clamp_u64(v: u64, lo: u64, hi: u64) -> (r: u64)
    requires
        lo <= hi,
    ensures
        r == clamp(v as int, lo as int, hi as int),
{
    if v < lo {
        lo
    } else if v > hi {
        hi
    } else {
        v
    }
}

fn normalize_wakatime_retry_backoff_secs(backoff_secs: &Vec<u64>) -> (r: Vec<u64>)
    ensures
        r@ == spec_normalized_backoff(backoff_secs@),
{
    let mut kept: Vec<u64> = Vec::new();
    let mut i: usize = 0;
    while i < backoff_secs.len()
        invariant
            i <= backoff_secs.len(),
            kept@.len() <= WAKATIME_RETRY_BACKOFF_MAX_ENTRIES,
            kept@ == (if clamped_backoff(backoff_secs@.subrange(0, i as int)).len()
                > WAKATIME_RETRY_BACKOFF_MAX_ENTRIES {
                clamped_backoff(backoff_secs@.subrange(0, i as int)).subrange(
                    0,
                    WAKATIME_RETRY_BACKOFF_MAX_ENTRIES as int,
                )
            } else {
                clamped_backoff(backoff_secs@.subrange(0, i as int))
            }),
        decreases backoff_secs.len() - i,
    {
        let secs = backoff_secs[i];
        let ghost before = clamped_backoff(backoff_secs@.subrange(0, i as int));
        assert(backoff_secs@.subrange(0, i + 1).drop_last() =~= backoff_secs@.subrange(0, i as int));
        if secs != 0 && kept.len() < WAKATIME_RETRY_BACKOFF_MAX_ENTRIES {
            kept.push(
                clamp_u64(secs, WAKATIME_RETRY_BACKOFF_MIN_SECS, WAKATIME_RETRY_BACKOFF_MAX_SECS),
            );
        }
        proof {
            let after = clamped_backoff(backoff_secs@.subrange(0, i + 1));
            if secs != 0 {
                assert(after == before.push(after.last()));
                if before.len() > WAKATIME_RETRY_BACKOFF_MAX_ENTRIES {
                    assert(after.subrange(0, 8) =~= before.subrange(0, 8));
                } else if before.len() == WAKATIME_RETRY_BACKOFF_MAX_ENTRIES {
                    assert(after.subrange(0, 8) =~= before);
                }
            }
        }
        i = i + 1;
    }
    assert(backoff_secs@.subrange(0, backoff_secs@.len() as int) =~= backoff_secs@);
    if kept.len() == 0 {
        default_wakatime_retry_backoff_secs()
    } else {
        kept
    }
}

impl WakatimeRuntimeConfig {
    /// Backoff delays, queue size and retry delay brought within their bounds.
    pub fn normalized(&self) -> (r: WakatimeRuntimeConfig)
        ensures
            r.retry_backoff_secs@ == spec_normalized_backoff(self.retry_backoff_secs@),
            r.queue_capacity == clamp(
                self.queue_capacity as int,
                WAKATIME_QUEUE_CAPACITY_MIN as int,
                WAKATIME_QUEUE_CAPACITY_MAX as int,
            ),
            r.queue_retry_delay_secs == clamp(
                self.queue_retry_delay_secs as int,
                WAKATIME_RETRY_DELAY_MIN_SECS as int,
                WAKATIME_RETRY_DELAY_MAX_SECS as int,
            ),
    {
        let capacity = if self.queue_capacity < WAKATIME_QUEUE_CAPACITY_MIN {
            WAKATIME_QUEUE_CAPACITY_MIN
        } else if self.queue_capacity > WAKATIME_QUEUE_CAPACITY_MAX {
            WAKATIME_QUEUE_CAPACITY_MAX
        } else {
            self.queue_capacity
        };
        WakatimeRuntimeConfig {
            retry_backoff_secs: normalize_wakatime_retry_backoff_secs(&self.retry_backoff_secs),
            queue_capacity: capacity,
            queue_retry_delay_secs: clamp_u64(
                self.queue_retry_delay_secs,
                WAKATIME_RETRY_DELAY_MIN_SECS,
                WAKATIME_RETRY_DELAY_MAX_SECS,
            ),
        }
    }
}

impl Default for WakatimeRuntimeConfig {
    /// Backoff 2, 5, 10 seconds; a queue of 512; retries after 30 seconds.
    fn default() -> (r: WakatimeRuntimeConfig)
        ensures
            r.retry_backoff_secs@ == default_backoff(),
            r.queue_capacity == 512,
            r.queue_retry_delay_secs == 30,
    {
        WakatimeRuntimeConfig {
            retry_backoff_secs: default_wakatime_retry_backoff_secs(),
            queue_capacity: default_wakatime_queue_capacity(),
            queue_retry_delay_secs: default_wakatime_queue_retry_delay_secs(),
        }
    }
}

impl WakatimeMetadataConfig {
    /// Blank labels replaced by their defaults, others trimmed.
    pub fn normalized(&self) -> (r: WakatimeMetadataConfig)
        ensures
            r.project@ == spec_nonempty_or_default(self.project@, "focustime"@),
            r.language@ == spec_nonempty_or_default(self.language@, "Pomodoro"@),
    {
        let project = default_wakatime_project();
        let language = default_wakatime_language();
        WakatimeMetadataConfig {
            project: normalize_nonempty_or_default_string(self.project.as_str(), project.as_str()),
            language: normalize_nonempty_or_default_string(
                self.language.as_str(),
                language.as_str(),
            ),
        }
    }
}

impl Default for WakatimeMetadataConfig {
    /// Project `focustime`, language `Pomodoro`.
    fn default() -> (r: WakatimeMetadataConfig)
        ensures
            r.project@ == "focustime"@,
            r.language@ == "Pomodoro"@,
    {
        WakatimeMetadataConfig {
            project: default_wakatime_project(),
            language: default_wakatime_language(),
        }
    }
}

} // verus!
