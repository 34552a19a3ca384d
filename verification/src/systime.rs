//! The system clock: which time source may set it, and what time it is.
use vstd::prelude::*;

verus! {

/// Where the system time came from, ordered None < Gnss < Net.
#[derive(Debug, Clone, Copy, PartialEq, Eq, Structural)]
pub enum FmlSystimeUpdateSource {
    NoSource,
    Gnss,
    Net,
}

impl FmlSystimeUpdateSource {
    pub open spec fn spec_rank(self) -> u8 {
        match self {
            FmlSystimeUpdateSource::NoSource => 0,
            FmlSystimeUpdateSource::Gnss => 1,
            FmlSystimeUpdateSource::Net => 2,
        }
    }

    #[verifier::when_used_as_spec(spec_rank)]
    pub fn rank(self) -> (r: u8)
        ensures
            r == self.spec_rank(),
    {
        match self {
            FmlSystimeUpdateSource::NoSource => 0,
            FmlSystimeUpdateSource::Gnss => 1,
            FmlSystimeUpdateSource::Net => 2,
        }
    }
}

/// Milliseconds after which the clock counts as stale: four minutes.
pub const FML_SYSTIME_STALE_MS: u64 = 240_000;

/// The clock's state.
#[derive(Debug, Clone, Copy, PartialEq, Eq)]
pub struct FmlSysTime {
    /// The source of the last update.
    pub last_source: FmlSystimeUpdateSource,
    /// The time that the last update set, in seconds since the epoch, UTC.
    pub last_stamp: i64,
    /// The reading of the real-time clock at the last update, in milliseconds.
    pub last_rtc: u64,
    /// The reading of the monotonic clock at the last update, in milliseconds.
    pub last_instant: Option<u64>,
}

/// Whether an update from `source` is taken: the source must not rank below
/// the last one, and must either outrank it or find the clock stale by more
/// than four minutes; it must be a real source and bring a time.
pub open spec fn spec_takes_update(
    s: FmlSysTime,
    source: FmlSystimeUpdateSource,
    new_utc: Option<i64>,
    cur_rtc: u64,
) -> bool {
    &&& source != FmlSystimeUpdateSource::NoSource
    &&& new_utc is Some
    &&& source.spec_rank() >= s.last_source.spec_rank()
    &&& (source.spec_rank() > s.last_source.spec_rank() || cur_rtc - s.last_rtc
        > FML_SYSTIME_STALE_MS)
}

pub open spec fn spec_time_set(
    s: FmlSysTime,
    source: FmlSystimeUpdateSource,
    new_utc: Option<i64>,
    cur_rtc: u64,
    now: u64,
) -> FmlSysTime {
    if spec_takes_update(s, source, new_utc, cur_rtc) {
        FmlSysTime {
            last_source: source,
            last_stamp: new_utc->0,
            last_rtc: cur_rtc,
            last_instant: Some(now),
        }
    } else {
        s
    }
}

/// The time in milliseconds since the epoch at the monotonic reading `now`:
/// zero before the first update, else the time that the last update set
/// plus what has passed since, kept within the range of the result.
pub open spec fn spec_time_ms(s: FmlSysTime, now: u64) -> i64 {
    if s.last_source == FmlSystimeUpdateSource::NoSource || s.last_instant is None {
        0
    } else {
        let passed: int = if now > s.last_instant->0 {
            now - s.last_instant->0
        } else {
            0
        };
        let ms: int = s.last_stamp * 1000 + passed;
        if ms > i64::MAX {
            i64::MAX
        } else if ms < i64::MIN {
            i64::MIN
        } else {
            ms as i64
        }
    }
}

/// The time in whole seconds since the epoch, rounded towards zero.
pub open spec fn spec_time_sec(s: FmlSysTime, now: u64) -> i64 {
    let ms: int = spec_time_ms(s, now) as int;
    if ms >= 0 {
        (ms / 1000) as i64
    } else {
        (-((-ms) / 1000)) as i64
    }
}

impl FmlSysTime {
    /// The clock before its first update.
    pub fn new() -> (r: FmlSysTime)
        ensures
            r == (FmlSysTime {
                last_source: FmlSystimeUpdateSource::NoSource,
                last_stamp: 0,
                last_rtc: 0,
                last_instant: None,
            }),
    {
        FmlSysTime {
            last_source: FmlSystimeUpdateSource::NoSource,
            last_stamp: 0,
            last_rtc: 0,
            last_instant: None,
        }
    }

    /// Offers a time from `source` to the clock. `cur_rtc` and `now` are the
    /// readings of the real-time and the monotonic clock, in milliseconds.
    /// Returns whether the update was taken.
    pub fn fml_system_time_set(
        &mut self,
        update_source: FmlSystimeUpdateSource,
        new_utc: Option<i64>,
        cur_rtc: u64,
        now: u64,
    ) -> (taken: bool)
        ensures
            taken == spec_takes_update(*old(self), update_source, new_utc, cur_rtc),
            *final(self) == spec_time_set(*old(self), update_source, new_utc, cur_rtc, now),
    {
        let mut need_update = false;
        if update_source.rank() >= self.last_source.rank() {
            if (cur_rtc > self.last_rtc && cur_rtc - self.last_rtc > FML_SYSTIME_STALE_MS)
                || update_source.rank() > self.last_source.rank() {
                need_update = true;
            }
        }
        if !need_update {
            return false;
        }
        match (update_source, new_utc) {
            (FmlSystimeUpdateSource::NoSource, _) => false,
            (_, None) => false,
            (_, Some(utc)) => {
                self.last_source = update_source;
                self.last_stamp = utc;
                self.last_rtc = cur_rtc;
                self.last_instant = Some(now);
                true
            },
        }
    }

    /// The time in milliseconds since the epoch at the monotonic reading `now`.
    pub fn fml_system_time_get_ms(&self, now: u64) -> (r: i64)
        ensures
            r == spec_time_ms(*self, now),
    {
        if self.last_source == FmlSystimeUpdateSource::NoSource {
            return 0;
        }
        let since = match self.last_instant {
            None => {
                return 0;
            },
            Some(t) => t,
        };
        let passed: i128 = if now > since {
            (now - since) as i128
        } else {
            0
        };
        let ms: i128 = (self.last_stamp as i128) * 1000 + passed;
        if ms > i64::MAX as i128 {
            i64::MAX
        } else if ms < i64::MIN as i128 {
            i64::MIN
        } else {
            ms as i64
        }
    }

    /// The time in seconds since the epoch at the monotonic reading `now`.
    pub fn fml_system_time_get_sec(&self, now: u64) -> (r: i64)
        ensures
            r == spec_time_sec(*self, now),
    {
        let ms = self.fml_system_time_get_ms(now);
        if ms >= 0 {
            ms / 1000
        } else if ms == i64::MIN {
            -9_223_372_036_854_775
        } else {
            -((-ms) / 1000)
        }
    }
}

/// A source that ranks below the last one never sets the clock.
pub proof fn lemma_lower_source_is_refused(
    s: FmlSysTime,
    source: FmlSystimeUpdateSource,
    new_utc: Option<i64>,
    cur_rtc: u64,
    now: u64,
)
    requires
        source.spec_rank() < s.last_source.spec_rank(),
    ensures
        spec_time_set(s, source, new_utc, cur_rtc, now) == s,
{
}

} // verus!
