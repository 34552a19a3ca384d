//! The GNSS driver's requests and the commands that serve them.
use crate::general::OnOff;
use crate::gnss_cmds::{NmeaType, Outport};
use vstd::prelude::*;

verus! {

/// A request to the command client's driver task.
#[derive(Debug, Clone, Copy, PartialEq, Eq, Structural)]
pub enum DrvAtClientMsg {
    Idle,
}

/// A request to the GNSS driver task.
#[derive(Debug, Clone, Copy, PartialEq, Eq, Structural)]
pub enum DrvGnssMsg {
    Init,
    Open,
    Close,
    GetLocation,
}

/// A command that the GNSS driver sends.
#[derive(Debug, Clone, Copy, PartialEq, Eq, Structural)]
pub enum DrvGnssCommand {
    SetOutport(Outport),
    SetNmeaSrc(OnOff),
    SetAutoGps(OnOff),
    SetApFlash(OnOff),
    SetSw(OnOff),
    GetNmea(NmeaType),
}

/// The commands that serve a request, in order: opening configures the
/// receiver and powers it on, closing powers it off, and a position is read
/// from the satellite, accuracy, fix and minimum-data sentences.
pub open spec fn spec_drv_gnss_commands(msg: DrvGnssMsg) -> Seq<DrvGnssCommand> {
    match msg {
        DrvGnssMsg::Init => Seq::empty(),
        DrvGnssMsg::Open => seq![
            DrvGnssCommand::SetOutport(Outport::UartDebug),
            DrvGnssCommand::SetNmeaSrc(OnOff::On),
            DrvGnssCommand::SetAutoGps(OnOff::Off),
            DrvGnssCommand::SetApFlash(OnOff::On),
            DrvGnssCommand::SetSw(OnOff::On),
        ],
        DrvGnssMsg::Close => seq![DrvGnssCommand::SetSw(OnOff::Off)],
        DrvGnssMsg::GetLocation => seq![
            DrvGnssCommand::GetNmea(NmeaType::GSV),
            DrvGnssCommand::GetNmea(NmeaType::GSA),
            DrvGnssCommand::GetNmea(NmeaType::GGA),
            DrvGnssCommand::GetNmea(NmeaType::RMC),
        ],
    }
}

/// One step of the GNSS driver task: the commands that serve `msg`.
pub fn drv_gnss_task(msg: DrvGnssMsg) -> (r: Vec<DrvGnssCommand>)
    ensures
        r@ == spec_drv_gnss_commands(msg),
{
    let mut out: Vec<DrvGnssCommand> = Vec::new();
    match msg {
        DrvGnssMsg::Init => {},
        DrvGnssMsg::Open => {
            out.push(DrvGnssCommand::SetOutport(Outport::UartDebug));
            out.push(DrvGnssCommand::SetNmeaSrc(OnOff::On));
            out.push(DrvGnssCommand::SetAutoGps(OnOff::Off));
            out.push(DrvGnssCommand::SetApFlash(OnOff::On));
            out.push(DrvGnssCommand::SetSw(OnOff::On));
        },
        DrvGnssMsg::Close => {
            out.push(DrvGnssCommand::SetSw(OnOff::Off));
        },
        DrvGnssMsg::GetLocation => {
            out.push(DrvGnssCommand::GetNmea(NmeaType::GSV));
            out.push(DrvGnssCommand::GetNmea(NmeaType::GSA));
            out.push(DrvGnssCommand::GetNmea(NmeaType::GGA));
            out.push(DrvGnssCommand::GetNmea(NmeaType::RMC));
        },
    }
    proof {
        assert(out@ =~= spec_drv_gnss_commands(msg));
    }
    out
}

/// What the rest of the firmware can ask of a GNSS driver: each method
/// gives the request to put on the driver's queue.
pub trait GnssHandle {
    fn init() -> (r: DrvGnssMsg)
        ensures
            r == DrvGnssMsg::Init,
    ;

    fn open() -> (r: DrvGnssMsg)
        ensures
            r == DrvGnssMsg::Open,
    ;

    fn close() -> (r: DrvGnssMsg)
        ensures
            r == DrvGnssMsg::Close,
    ;

    fn get_location() -> (r: DrvGnssMsg)
        ensures
            r == DrvGnssMsg::GetLocation,
    ;
}

/// The handle of this device's GNSS driver.
#[derive(Debug, Clone, Copy, PartialEq, Eq, Structural)]
pub struct DrvGnssHandle;

impl GnssHandle for DrvGnssHandle {
    fn init() -> (r: DrvGnssMsg) {
        DrvGnssMsg::Init
    }

    fn open() -> (r: DrvGnssMsg) {
        DrvGnssMsg::Open
    }

    fn close() -> (r: DrvGnssMsg) {
        DrvGnssMsg::Close
    }

    fn get_location() -> (r: DrvGnssMsg) {
        DrvGnssMsg::GetLocation
    }
}

} // verus!
