//! Motion state: debounced vibration events switch it on, extended
//! stillness switches it off.
use crate::storage::FmlAccStatus;
use vstd::prelude::*;

verus! {

/// Milliseconds without a vibration after which the count of vibrations starts anew.
pub const FML_ACC_VIB_GAP_MS: u64 = 10_000;

/// Milliseconds without a vibration after which the device counts as still.
pub const FML_ACC_STILL_MS: u64 = 180_000;

/// Vibrations in close succession that must precede the one that switches motion on.
pub const FML_ACC_VIB_COUNT: u32 = 3;

/// The motion tracker's state.
#[derive(Debug, Clone, Copy, PartialEq, Eq)]
pub struct FmlAcc {
    pub status: FmlAccStatus,
    /// Vibrations counted in the current burst, up to 3.
    pub vib_cnt: u32,
    /// Time of the last vibration, in milliseconds.
    pub last_vib_time: u64,
}

/// Milliseconds from `since` to `now`; zero where `now` is not later.
pub open spec fn spec_elapsed(now: u64, since: u64) -> u64 {
    if now > since {
        (now - since) as u64
    } else {
        0
    }
}

/// The state after a vibration at `now`: a gap of more than 10 s restarts
/// the count; the count rises up to 3, and a vibration that finds it at 3
/// switches motion on.
pub open spec fn spec_on_vibration(s: FmlAcc, now: u64) -> FmlAcc {
    let cnt = if spec_elapsed(now, s.last_vib_time) > FML_ACC_VIB_GAP_MS {
        0
    } else {
        s.vib_cnt
    };
    if cnt < FML_ACC_VIB_COUNT {
        FmlAcc { status: s.status, vib_cnt: (cnt + 1) as u32, last_vib_time: now }
    } else {
        FmlAcc { status: FmlAccStatus::On, vib_cnt: cnt, last_vib_time: now }
    }
}

/// The state after a quiet check at `now`: motion goes off once the last
/// vibration is more than three minutes old.
pub open spec fn spec_on_quiet(s: FmlAcc, now: u64) -> FmlAcc {
    if s.status == FmlAccStatus::On && spec_elapsed(now, s.last_vib_time) > FML_ACC_STILL_MS {
        FmlAcc { status: FmlAccStatus::Off, ..s }
    } else {
        s
    }
}

fn elapsed(now: u64, since: u64) -> (r: u64)
    ensures
        r == spec_elapsed(now, since),
{
    if now > since {
        now - since
    } else {
        0
    }
}

impl FmlAcc {
    /// The state at startup: still, no vibration seen, the clock at `now`.
    pub fn new(now: u64) -> (r: FmlAcc)
        ensures
            r == (FmlAcc { status: FmlAccStatus::Off, vib_cnt: 0, last_vib_time: now }),
    {
        FmlAcc { status: FmlAccStatus::Off, vib_cnt: 0, last_vib_time: now }
    }

    /// Sets the motion state.
    pub fn fml_acc_status_set(&mut self, new_status: FmlAccStatus)
        ensures
            *final(self) == (FmlAcc { status: new_status, ..*old(self) }),
    {
        self.status = new_status;
    }

    /// Takes a vibration event that arrived at `now`, in milliseconds.
    pub fn fml_acc_msg_rpy_task(&mut self, now: u64)
        ensures
            *final(self) == spec_on_vibration(*old(self), now),
    {
        if elapsed(now, self.last_vib_time) > FML_ACC_VIB_GAP_MS {
            self.vib_cnt = 0;
        }
        if self.vib_cnt < FML_ACC_VIB_COUNT {
            self.vib_cnt = self.vib_cnt + 1;
        } else {
            self.fml_acc_status_set(FmlAccStatus::On);
        }
        self.last_vib_time = now;
    }

    /// Checks for stillness at `now`, in milliseconds, when no event is waiting.
    pub fn quiet_check(&mut self, now: u64)
        ensures
            *final(self) == spec_on_quiet(*old(self), now),
    {
        if self.status == FmlAccStatus::On && elapsed(now, self.last_vib_time) > FML_ACC_STILL_MS {
            self.fml_acc_status_set(FmlAccStatus::Off);
        }
    }
}

/// The current motion state.
pub fn fml_acc_status_get(acc: &FmlAcc) -> (r: FmlAccStatus)
    ensures
        r == acc.status,
{
    acc.status
}

/// Whether the device is in motion.
pub fn fml_acc_is_on(acc: &FmlAcc) -> (r: bool)
    ensures
        r == (acc.status == FmlAccStatus::On),
{
    acc.status == FmlAccStatus::On
}

} // verus!
