//! Temperature and humidity samples: queueing them for upload and raising
//! alarms when a threshold is crossed.
use crate::msg::Msg;
use crate::storage::{FmlNetAttachStatus, FmlTempHumiData};
use vstd::prelude::*;

verus! {

/// Identity under which samples are published.
pub const FML_TEMP_DATA_ID: u16 = 1;

/// Milliseconds for which a raised alarm is not raised again: thirty minutes.
pub const FML_TEMP_ALARM_SILENT_MS: u64 = 1_800_000;

/// The thresholds, in hundredths of a degree Celsius and of a percent. A
/// value at or beyond its threshold raises the alarm.
#[derive(Debug, Clone, Copy, PartialEq, Eq)]
pub struct FmlTempHumiAlarmConfig {
    pub low_temp: Option<i32>,
    pub high_temp: Option<i32>,
    pub low_humi: Option<i32>,
    pub high_humi: Option<i32>,
}

/// When each alarm was last raised, in milliseconds; `None` while the value is within bounds.
#[derive(Debug, Clone, Copy, PartialEq, Eq)]
pub struct FmlTempAlarm {
    pub temp_alarm_slient_time: Option<u64>,
    pub humi_alarm_slient_time: Option<u64>,
}

/// What follows a sample.
#[derive(Debug, Clone, Copy, PartialEq, Eq)]
pub struct TempStep {
    /// The sample to queue for publishing.
    pub sample: Option<FmlTempHumiData>,
    /// Whether to signal a publish attempt.
    pub publish: bool,
    /// The temperature to send an alarm for.
    pub temp_alarm: Option<i32>,
    /// The humidity to send an alarm for.
    pub humi_alarm: Option<i32>,
}

/// Whether a value is at or beyond one of its thresholds.
pub open spec fn spec_out_of_bounds(value: i32, low: Option<i32>, high: Option<i32>) -> bool {
    (low is Some && value <= low->0) || (high is Some && value >= high->0)
}

/// Whether an alarm is raised at `now` for a value that is out of bounds:
/// when it was not raised before, or more than thirty minutes ago.
pub open spec fn spec_raises(silent_since: Option<u64>, now: u64) -> bool {
    silent_since is None || (now > silent_since->0 && now - silent_since->0
        > FML_TEMP_ALARM_SILENT_MS)
}

/// The time an alarm was last raised, after a value was seen at `now`.
pub open spec fn spec_silent_after(silent_since: Option<u64>, out: bool, now: u64) -> Option<u64> {
    if !out {
        None
    } else if spec_raises(silent_since, now) {
        Some(now)
    } else {
        silent_since
    }
}

/// Whether a sample is taken any further: the clock must be set, and for
/// publishing and alarms the radio must be attached with 2G service or better.
pub open spec fn spec_is_attached(att: FmlNetAttachStatus) -> bool {
    att.spec_rank() >= FmlNetAttachStatus::GSMService.spec_rank()
}

/// What follows a sample taken at `now` when the clock reads `time_sec`.
/// Before the clock is set the sample is dropped. Else it is queued; with
/// the radio attached a publish is signalled and the thresholds are checked.
pub open spec fn spec_temp_step(
    a: FmlTempAlarm,
    cfg: Option<FmlTempHumiAlarmConfig>,
    temp: i32,
    humi: i32,
    time_sec: i64,
    att: FmlNetAttachStatus,
    now: u64,
) -> (FmlTempAlarm, TempStep) {
    if time_sec == 0 {
        (a, TempStep { sample: None, publish: false, temp_alarm: None, humi_alarm: None })
    } else {
        let sample = Some(FmlTempHumiData { id: FML_TEMP_DATA_ID, temp, humi });
        if !spec_is_attached(att) {
            (a, TempStep { sample, publish: false, temp_alarm: None, humi_alarm: None })
        } else if cfg is None {
            (a, TempStep { sample, publish: true, temp_alarm: None, humi_alarm: None })
        } else {
            let t_out = spec_out_of_bounds(temp, cfg->0.low_temp, cfg->0.high_temp);
            let h_out = spec_out_of_bounds(humi, cfg->0.low_humi, cfg->0.high_humi);
            (
                FmlTempAlarm {
                    temp_alarm_slient_time: spec_silent_after(a.temp_alarm_slient_time, t_out, now),
                    humi_alarm_slient_time: spec_silent_after(a.humi_alarm_slient_time, h_out, now),
                },
                TempStep {
                    sample,
                    publish: true,
                    temp_alarm: if t_out && spec_raises(a.temp_alarm_slient_time, now) {
                        Some(temp)
                    } else {
                        None
                    },
                    humi_alarm: if h_out && spec_raises(a.humi_alarm_slient_time, now) {
                        Some(humi)
                    } else {
                        None
                    },
                },
            )
        }
    }
}

fn out_of_bounds(value: i32, low: Option<i32>, high: Option<i32>) -> (r: bool)
    ensures
        r == spec_out_of_bounds(value, low, high),
{
    let below = match low {
        Some(l) => value <= l,
        None => false,
    };
    let above = match high {
        Some(h) => value >= h,
        None => false,
    };
    below || above
}

fn check(silent_since: Option<u64>, out: bool, now: u64) -> (r: (Option<u64>, bool))
    ensures
        r.0 == spec_silent_after(silent_since, out, now),
        r.1 == (out && spec_raises(silent_since, now)),
{
    if !out {
        return (None, false);
    }
    let raises = match silent_since {
        None => true,
        Some(t) => now > t && now - t > FML_TEMP_ALARM_SILENT_MS,
    };
    if raises {
        (Some(now), true)
    } else {
        (silent_since, false)
    }
}

impl FmlTempAlarm {
    /// No alarm raised.
    pub fn new() -> (r: FmlTempAlarm)
        ensures
            r.temp_alarm_slient_time is None,
            r.humi_alarm_slient_time is None,
    {
        FmlTempAlarm { temp_alarm_slient_time: None, humi_alarm_slient_time: None }
    }

    /// One step of the sample task: takes a sample and says what to do with it.
    pub fn fml_temp_msg_rpy_task(
        &mut self,
        cfg: Option<FmlTempHumiAlarmConfig>,
        temp: i32,
        humi: i32,
        time_sec: i64,
        att: FmlNetAttachStatus,
        now: u64,
    ) -> (r: TempStep)
        ensures
            (*final(self), r) == spec_temp_step(*old(self), cfg, temp, humi, time_sec, att, now),
    {
        if time_sec == 0 {
            return TempStep { sample: None, publish: false, temp_alarm: None, humi_alarm: None };
        }
        let sample = Some(FmlTempHumiData::new(FML_TEMP_DATA_ID, temp, humi));
        if att.rank() < FmlNetAttachStatus::GSMService.rank() {
            return TempStep { sample, publish: false, temp_alarm: None, humi_alarm: None };
        }
        let cfg = match cfg {
            None => {
                return TempStep { sample, publish: true, temp_alarm: None, humi_alarm: None };
            },
            Some(c) => c,
        };
        let (t_since, t_raise) = check(
            self.temp_alarm_slient_time,
            out_of_bounds(temp, cfg.low_temp, cfg.high_temp),
            now,
        );
        let (h_since, h_raise) = check(
            self.humi_alarm_slient_time,
            out_of_bounds(humi, cfg.low_humi, cfg.high_humi),
            now,
        );
        self.temp_alarm_slient_time = t_since;
        self.humi_alarm_slient_time = h_since;
        TempStep {
            sample,
            publish: true,
            temp_alarm: if t_raise {
                Some(temp)
            } else {
                None
            },
            humi_alarm: if h_raise {
                Some(humi)
            } else {
                None
            },
        }
    }
}

/// The request for a sample.
pub fn fml_temp_humi_get_req() -> (r: Msg)
    ensures
        r == Msg::TsensorGetReq,
{
    Msg::TsensorGetReq
}

/// Whether samples are taken at all, and how many seconds apart: an interval
/// of zero minutes switches sampling off.
pub fn fml_temp_detect_task(detect_inv: u32) -> (r: Option<u64>)
    ensures
        r == if detect_inv > 0 {
            Some((detect_inv * 60) as u64)
        } else {
            None
        },
{
    if detect_inv > 0 {
        Some(detect_inv as u64 * 60)
    } else {
        None
    }
}

} // verus!
