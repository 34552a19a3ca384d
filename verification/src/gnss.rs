//! GNSS power state and the validation of position fixes.
use crate::msg::Msg;
use crate::storage::{FmlAccStatus, FmlGnssData, FmlGnssRawData, FmlGnssStatus, FmlNetAttachStatus};
use vstd::prelude::*;

verus! {

/// Speed above which a fix is implausible: 300 km/h, in hundredths.
pub const FML_GNSS_SPEED_MAX: u32 = 30_000;

/// Largest course over ground: 360 degrees, in hundredths.
pub const FML_GNSS_COURSE_MAX: i32 = 36_000;

/// Largest dilution of precision that the startup gate lets through: 3.5, in hundredths.
pub const FML_GNSS_HDOP_GATE: u32 = 350;

/// Rejections after which the startup gate no longer applies.
pub const FML_GNSS_GATE_TRIES: u8 = 2;

/// Speed above which an unchanged position is a stuck fix: 5 km/h, in hundredths.
pub const FML_GNSS_STUCK_SPEED: u32 = 500;

/// Identity under which positions are published.
pub const FML_GNSS_DATA_ID: u16 = 1;

/// Seconds until the next position is asked for after an accepted fix.
pub const FML_GNSS_POLL_FIX_SECS: u32 = 30;

/// Seconds until the next position is asked for after a rejected or absent fix.
pub const FML_GNSS_POLL_RETRY_SECS: u32 = 5;

/// The first of the plausibility rules that a fix breaks, as its code, or 0:
/// -1 for less than a 2D fix, -2 for a speed above 300 km/h, -3 for a course
/// outside 0 to 360 degrees, -4 for a latitude or longitude of exactly zero.
pub open spec fn spec_check_error(d: FmlGnssRawData) -> i8 {
    if d.fix < 2 {
        -1i8
    } else if d.spkm > FML_GNSS_SPEED_MAX {
        -2i8
    } else if d.cog is Some && (d.cog->0 > FML_GNSS_COURSE_MAX || d.cog->0 < 0) {
        -3i8
    } else if d.longitude == 0 || d.latitude == 0 {
        -4i8
    } else {
        0
    }
}

/// The startup precision gate: a dilution of precision of at most 3.5 passes.
pub open spec fn spec_first_loc_filter(d: FmlGnssRawData) -> bool {
    d.hdop <= FML_GNSS_HDOP_GATE
}

/// A stuck fix: the device reports movement but its position is that of the last accepted fix.
pub open spec fn spec_is_stuck(d: FmlGnssRawData, last: FmlGnssRawData) -> bool {
    d.spkm > FML_GNSS_STUCK_SPEED && d.latitude == last.latitude && d.longitude == last.longitude
}

pub fn fml_gnss_check_error(gnss_data: &FmlGnssRawData) -> (r: i8)
    ensures
        r == spec_check_error(*gnss_data),
{
    if gnss_data.fix < 2 {
        return -1;
    }
    if gnss_data.spkm > FML_GNSS_SPEED_MAX {
        return -2;
    }
    match gnss_data.cog {
        Some(course) => {
            if course > FML_GNSS_COURSE_MAX || course < 0 {
                return -3;
            }
        },
        None => {},
    }
    if gnss_data.longitude == 0 || gnss_data.latitude == 0 {
        return -4;
    }
    0
}

pub fn fml_gnss_first_loc_filter(gnss_data: &FmlGnssRawData) -> (r: bool)
    ensures
        r == spec_first_loc_filter(*gnss_data),
{
    gnss_data.hdop <= FML_GNSS_HDOP_GATE
}

/// What the filter remembers between fixes.
#[derive(Debug, Clone, Copy, PartialEq, Eq)]
pub struct FmlGnssFilter {
    /// The last accepted fix; all zero before the first.
    pub last_gnss: FmlGnssRawData,
    /// Rejections by the startup gate since the receiver was last activated, up to 2.
    pub gnss_filter_cnt: u8,
    /// Stuck fixes in a row.
    pub abnormal_cnt: u32,
}

/// Why a fix was not accepted.
#[derive(Debug, Clone, Copy, PartialEq, Eq, Structural)]
pub enum Rejection {
    /// The receiver is off.
    ReceiverOff,
    /// The receiver reported no fix.
    NoFix,
    /// A plausibility rule was broken; the code says which.
    Implausible(i8),
    /// The startup precision gate refused the fix.
    Imprecise,
    /// The position is stuck.
    Stuck,
}

/// The verdict on one report, rules applied in order: receiver off, no fix,
/// plausibility, the startup gate while it has refused fewer than two
/// fixes, stuck position.
pub open spec fn spec_verdict(
    f: FmlGnssFilter,
    status: FmlGnssStatus,
    report: Option<FmlGnssRawData>,
) -> Option<Rejection> {
    if status == FmlGnssStatus::Off {
        Some(Rejection::ReceiverOff)
    } else if report is None {
        Some(Rejection::NoFix)
    } else if spec_check_error(report->0) != 0 {
        Some(Rejection::Implausible(spec_check_error(report->0)))
    } else if f.gnss_filter_cnt < FML_GNSS_GATE_TRIES && !spec_first_loc_filter(report->0) {
        Some(Rejection::Imprecise)
    } else if spec_is_stuck(report->0, f.last_gnss) {
        Some(Rejection::Stuck)
    } else {
        None
    }
}

/// The filter's memory after a report: an inactive receiver or an absent fix
/// begins the startup phase anew, a fix turned down for its precision
/// raises the startup tally, a stuck fix raises the anomaly tally, and an
/// accepted fix clears the anomaly tally and becomes the last accepted one.
pub open spec fn spec_filter_after(
    f: FmlGnssFilter,
    status: FmlGnssStatus,
    report: Option<FmlGnssRawData>,
) -> FmlGnssFilter {
    match spec_verdict(f, status, report) {
        Some(Rejection::ReceiverOff) | Some(Rejection::NoFix) => FmlGnssFilter {
            gnss_filter_cnt: 0,
            ..f
        },
        Some(Rejection::Implausible(_)) => f,
        Some(Rejection::Imprecise) => FmlGnssFilter {
            gnss_filter_cnt: (f.gnss_filter_cnt + 1) as u8,
            ..f
        },
        Some(Rejection::Stuck) => FmlGnssFilter {
            abnormal_cnt: if f.abnormal_cnt < u32::MAX {
                (f.abnormal_cnt + 1) as u32
            } else {
                f.abnormal_cnt
            },
            ..f
        },
        None => FmlGnssFilter { last_gnss: report->0, abnormal_cnt: 0, ..f },
    }
}

/// The receiver state that an accepted fix stands for.
pub open spec fn spec_status_of_fix(status: FmlGnssStatus, fix: u8) -> FmlGnssStatus {
    if fix == 2 {
        FmlGnssStatus::Fix2D
    } else if fix == 3 {
        FmlGnssStatus::Fix3D
    } else {
        status
    }
}

/// Whether position reporting is closed down: after extended stillness,
/// while the radio is attached below 2G service, and while the receiver is
/// off or was never opened.
pub open spec fn spec_must_close(
    acc: FmlAccStatus,
    att: FmlNetAttachStatus,
    status: FmlGnssStatus,
) -> bool {
    acc == FmlAccStatus::Off || att.spec_rank() < FmlNetAttachStatus::GSMService.spec_rank()
        || status.spec_rank() < FmlGnssStatus::On.spec_rank() || status == FmlGnssStatus::NotOpen
}

/// What follows a report.
#[derive(Debug, Clone, Copy, PartialEq, Eq)]
pub struct FilterStep {
    /// Why the fix was not accepted; `None` where it was.
    pub rejection: Option<Rejection>,
    /// The position to queue for publishing, where the fix was accepted.
    pub location: Option<FmlGnssData>,
    /// The fix time to offer to the system clock, where the fix was accepted.
    pub utc_stamp: Option<i64>,
    /// Whether to signal a publish attempt.
    pub publish: bool,
    /// The request to hand to the modem next.
    pub request: Msg,
    /// Seconds to wait before that request.
    pub delay_secs: u32,
}

/// What follows a report with the given verdict. An accepted fix is queued
/// under the positions' identity with its coordinates unchanged, offers its
/// time to the clock and signals a publish. Then either the receiver is
/// closed at once, or the next position is asked for: 30 s after an accepted
/// fix, 5 s after any other report.
pub open spec fn spec_filter_step(
    f: FmlGnssFilter,
    status: FmlGnssStatus,
    report: Option<FmlGnssRawData>,
    acc: FmlAccStatus,
    att: FmlNetAttachStatus,
) -> FilterStep {
    let verdict = spec_verdict(f, status, report);
    let accepted = verdict is None;
    let after = if accepted {
        spec_status_of_fix(status, report->0.fix)
    } else {
        status
    };
    let close = spec_must_close(acc, att, after);
    FilterStep {
        rejection: verdict,
        location: if accepted {
            Some(
                FmlGnssData {
                    id: FML_GNSS_DATA_ID,
                    lat: report->0.latitude,
                    lon: report->0.longitude,
                },
            )
        } else {
            None
        },
        utc_stamp: if accepted {
            Some(report->0.utc_stamp)
        } else {
            None
        },
        publish: accepted,
        request: if close {
            Msg::GnssCloseReq
        } else {
            Msg::GnssGetLocationReq
        },
        delay_secs: if close {
            0
        } else if accepted {
            FML_GNSS_POLL_FIX_SECS
        } else {
            FML_GNSS_POLL_RETRY_SECS
        },
    }
}

/// The receiver's power state and the filter's memory.
#[derive(Debug, Clone, Copy, PartialEq, Eq)]
pub struct FmlGnss {
    pub status: FmlGnssStatus,
    pub filter: FmlGnssFilter,
}

/// The receiver state after a power event: a confirmed opening turns it on,
/// a confirmed closing turns it off, the modem's ready banner turns it off
/// where it was on; any other message leaves it.
pub open spec fn spec_control_status(status: FmlGnssStatus, msg: Msg) -> FmlGnssStatus {
    match msg {
        Msg::GnssOpenRpy(true) => FmlGnssStatus::On,
        Msg::GnssCloseRpy(true) => FmlGnssStatus::Off,
        Msg::ModemReady => FmlGnssStatus::Off,
        _ => status,
    }
}

/// The request that a power event gives rise to: after a confirmed opening
/// the first position is asked for; after the ready banner the receiver is
/// opened again where it was on.
pub open spec fn spec_control_request(status: FmlGnssStatus, msg: Msg) -> Option<Msg> {
    match msg {
        Msg::GnssOpenRpy(true) => Some(Msg::GnssGetLocationReq),
        Msg::ModemReady => if status.spec_rank() > FmlGnssStatus::Off.spec_rank() {
            Some(Msg::GnssOpenReq)
        } else {
            None
        },
        _ => None,
    }
}

impl FmlGnss {
    /// The state at startup: receiver off, nothing accepted yet.
    pub fn new() -> (r: FmlGnss)
        ensures
            r == (FmlGnss {
                status: FmlGnssStatus::Off,
                filter: FmlGnssFilter {
                    last_gnss: FmlGnssRawData {
                        latitude: 0,
                        longitude: 0,
                        hdop: 0,
                        altitude: 0,
                        fix: 0,
                        cog: None,
                        spkm: 0,
                        spkn: 0,
                        nsat: 0,
                        utc_stamp: 0,
                    },
                    gnss_filter_cnt: 0,
                    abnormal_cnt: 0,
                },
            }),
    {
        FmlGnss {
            status: FmlGnssStatus::Off,
            filter: FmlGnssFilter {
                last_gnss: FmlGnssRawData::default(),
                gnss_filter_cnt: 0,
                abnormal_cnt: 0,
            },
        }
    }

    /// Sets the receiver state.
    pub fn fml_gnss_status_set(&mut self, new_status: FmlGnssStatus)
        ensures
            final(self).status == new_status,
            final(self).filter == old(self).filter,
    {
        self.status = new_status;
    }

    /// The request to power the receiver on, unless it is on already.
    pub fn fml_gnss_on_req(&self) -> (r: Option<Msg>)
        ensures
            r == if self.status.spec_rank() < FmlGnssStatus::On.spec_rank() {
                Some(Msg::GnssOpenReq)
            } else {
                None
            },
    {
        if self.status.rank() < FmlGnssStatus::On.rank() {
            Some(Msg::GnssOpenReq)
        } else {
            None
        }
    }

    /// The request to power the receiver off, unless it is off already.
    pub fn fml_gnss_off_req(&self) -> (r: Option<Msg>)
        ensures
            r == if self.status.spec_rank() > FmlGnssStatus::Off.spec_rank() {
                Some(Msg::GnssCloseReq)
            } else {
                None
            },
    {
        if self.status.rank() > FmlGnssStatus::Off.rank() {
            Some(Msg::GnssCloseReq)
        } else {
            None
        }
    }

    /// One step of the power controller: takes a power event and returns the
    /// request to make next, if any.
    pub fn fml_gnss_control_task(&mut self, msg: &Msg) -> (r: Option<Msg>)
        ensures
            final(self).status == spec_control_status(old(self).status, *msg),
            final(self).filter == old(self).filter,
            r == spec_control_request(old(self).status, *msg),
    {
        match *msg {
            Msg::GnssOpenRpy(ok) => {
                if ok {
                    self.fml_gnss_status_set(FmlGnssStatus::On);
                    Some(Msg::GnssGetLocationReq)
                } else {
                    None
                }
            },
            Msg::GnssCloseRpy(ok) => {
                if ok {
                    self.fml_gnss_status_set(FmlGnssStatus::Off);
                }
                None
            },
            Msg::ModemReady => {
                if self.status.rank() > FmlGnssStatus::Off.rank() {
                    self.fml_gnss_status_set(FmlGnssStatus::Off);
                    self.fml_gnss_on_req()
                } else {
                    None
                }
            },
            _ => None,
        }
    }

    /// One step of the fix filter: validates the report of the receiver,
    /// `None` standing for "no fix", and says what to do next.
    pub fn fml_gnss_data_filter_task(
        &mut self,
        report: Option<FmlGnssRawData>,
        acc: FmlAccStatus,
        att: FmlNetAttachStatus,
    ) -> (r: FilterStep)
        ensures
            r == spec_filter_step(old(self).filter, old(self).status, report, acc, att),
            final(self).filter == spec_filter_after(old(self).filter, old(self).status, report),
            final(self).status == if r.rejection is None {
                spec_status_of_fix(old(self).status, report->0.fix)
            } else {
                old(self).status
            },
    {
        let verdict = self.validate(report);
        let mut location: Option<FmlGnssData> = None;
        let mut utc_stamp: Option<i64> = None;
        match (verdict, report) {
            (None, Some(fix)) => {
                if fix.fix == 2 {
                    self.fml_gnss_status_set(FmlGnssStatus::Fix2D);
                } else if fix.fix == 3 {
                    self.fml_gnss_status_set(FmlGnssStatus::Fix3D);
                }
                location = Some(FmlGnssData::new(FML_GNSS_DATA_ID, fix.longitude, fix.latitude));
                utc_stamp = Some(fix.utc_stamp);
            },
            _ => {},
        }
        let accepted = verdict.is_none();
        let close = must_close(acc, att, self.status);
        FilterStep {
            rejection: verdict,
            location,
            utc_stamp,
            publish: accepted,
            request: if close {
                Msg::GnssCloseReq
            } else {
                Msg::GnssGetLocationReq
            },
            delay_secs: if close {
                0
            } else if accepted {
                FML_GNSS_POLL_FIX_SECS
            } else {
                FML_GNSS_POLL_RETRY_SECS
            },
        }
    }

    /// Applies the validation rules to a report and updates the filter's memory.
    pub fn validate(&mut self, report: Option<FmlGnssRawData>) -> (r: Option<Rejection>)
        ensures
            r == spec_verdict(old(self).filter, old(self).status, report),
            final(self).filter == spec_filter_after(old(self).filter, old(self).status, report),
            final(self).status == old(self).status,
    {
        if self.status == FmlGnssStatus::Off {
            self.filter.gnss_filter_cnt = 0;
            return Some(Rejection::ReceiverOff);
        }
        let fix = match report {
            None => {
                self.filter.gnss_filter_cnt = 0;
                return Some(Rejection::NoFix);
            },
            Some(fix) => fix,
        };
        let code = fml_gnss_check_error(&fix);
        if code != 0 {
            return Some(Rejection::Implausible(code));
        }
        if self.filter.gnss_filter_cnt < FML_GNSS_GATE_TRIES && !fml_gnss_first_loc_filter(&fix) {
            self.filter.gnss_filter_cnt = self.filter.gnss_filter_cnt + 1;
            return Some(Rejection::Imprecise);
        }
        if fix.spkm > FML_GNSS_STUCK_SPEED && fix.latitude == self.filter.last_gnss.latitude
            && fix.longitude == self.filter.last_gnss.longitude {
            if self.filter.abnormal_cnt < u32::MAX {
                self.filter.abnormal_cnt = self.filter.abnormal_cnt + 1;
            }
            return Some(Rejection::Stuck);
        }
        self.filter.abnormal_cnt = 0;
        self.filter.last_gnss = fix;
        None
    }
}

/// Whether position reporting is closed down.
pub fn must_close(acc: FmlAccStatus, att: FmlNetAttachStatus, status: FmlGnssStatus) -> (r: bool)
    ensures
        r == spec_must_close(acc, att, status),
{
    acc == FmlAccStatus::Off || att.rank() < FmlNetAttachStatus::GSMService.rank() || status.rank()
        < FmlGnssStatus::On.rank() || status == FmlGnssStatus::NotOpen
}

/// The current receiver state.
pub fn fml_gnss_status_get(gnss: &FmlGnss) -> (r: FmlGnssStatus)
    ensures
        r == gnss.status,
{
    gnss.status
}

/// The startup gate at its boundary: while it has refused fewer than two
/// fixes, an otherwise valid fix passes it with a dilution of precision of
/// exactly 3.5 and fails it with 3.51; once it has refused two, it refuses
/// no fix, whatever the precision.
pub proof fn lemma_hdop_gate_boundary(
    f: FmlGnssFilter,
    status: FmlGnssStatus,
    d: FmlGnssRawData,
)
    requires
        status != FmlGnssStatus::Off,
        spec_check_error(d) == 0,
    ensures
        f.gnss_filter_cnt < 2 && d.hdop == 350 ==> spec_verdict(f, status, Some(d))
            != Some(Rejection::Imprecise),
        f.gnss_filter_cnt < 2 && d.hdop == 351 ==> spec_verdict(f, status, Some(d)) == Some(
            Rejection::Imprecise,
        ),
        f.gnss_filter_cnt >= 2 ==> spec_verdict(f, status, Some(d)) != Some(Rejection::Imprecise),
        spec_verdict(f, status, Some(d)) == Some(Rejection::Imprecise) ==> spec_filter_after(
            f,
            status,
            Some(d),
        ).gnss_filter_cnt == f.gnss_filter_cnt + 1,
        spec_verdict(f, status, Some(d)) != Some(Rejection::Imprecise) ==> spec_filter_after(
            f,
            status,
            Some(d),
        ).gnss_filter_cnt == f.gnss_filter_cnt,
{
}

/// An accepted fix is queued with its coordinates as they were reported,
/// clears the anomaly count and becomes the fix that later ones are held against.
pub proof fn lemma_accepted_fix_is_kept(
    f: FmlGnssFilter,
    status: FmlGnssStatus,
    d: FmlGnssRawData,
    acc: FmlAccStatus,
    att: FmlNetAttachStatus,
)
    requires
        spec_verdict(f, status, Some(d)) is None,
    ensures
        spec_filter_step(f, status, Some(d), acc, att).location == Some(
            FmlGnssData { id: FML_GNSS_DATA_ID, lat: d.latitude, lon: d.longitude },
        ),
        spec_filter_after(f, status, Some(d)).abnormal_cnt == 0,
        spec_filter_after(f, status, Some(d)).last_gnss == d,
{
}

} // verus!
