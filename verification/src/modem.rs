//! The modem client: which commands a request is served with, and which
//! reply their outcome gives rise to.
use crate::general::OnOff;
use crate::mqtt_types::{MqttClientIdx, MqttVersion};
use crate::msg::Msg;
use crate::storage::{FmlGnssRawData, FmlNetSendType};
use vstd::prelude::*;

verus! {

/// A command that the client sends to the modem.
#[derive(Debug, Clone, Copy, PartialEq, Eq)]
pub enum AtCommand {
    VerifyAT,
    EchoSet(OnOff),
    UrcPortConfig,
    /// Picks how registration changes are reported.
    CregSet(u8),
    CregQuery,
    SimQuery,
    /// Picks the format of short messages.
    CmgfSet(u8),
    ConfigSave,
    GpsSet(OnOff),
    GpsGetLocation,
    TimeQuery,
    MqttVersionConfig(MqttClientIdx, MqttVersion),
    MqttOpen(MqttClientIdx),
    MqttClose(MqttClientIdx),
    MqttConn(MqttClientIdx),
    /// Publishes one item at the lowest level of assurance, not retained.
    MqttPublish(MqttClientIdx, FmlNetSendType),
}

/// What came of the last command of a request.
#[derive(Debug, Clone, Copy, PartialEq, Eq)]
pub enum Outcome {
    /// The command failed or timed out.
    Failed,
    /// The command succeeded and brought nothing back.
    Done,
    /// A position.
    Location(FmlGnssRawData),
    /// A registration status.
    Registration { stat: u8, lac: Option<u16>, ci: Option<u32>, act: Option<u8> },
    /// Whether the SIM is ready.
    Sim(bool),
    /// The network time in seconds since the epoch, UTC.
    Time(i64),
}

/// What the client knows of the session's settings and of the item handed to it.
#[derive(Debug, Clone, Copy, PartialEq, Eq)]
pub struct ClientContext {
    /// Whether the server's address is configured.
    pub has_server: bool,
    /// Whether the login is configured.
    pub has_login: bool,
    /// The item that the delivery queue handed over for publishing, if any.
    pub pending: Option<FmlNetSendType>,
}

/// The commands that bring the modem into its working configuration.
pub open spec fn spec_init_commands() -> Seq<AtCommand> {
    seq![
        AtCommand::EchoSet(OnOff::Off),
        AtCommand::UrcPortConfig,
        AtCommand::CregSet(2),
        AtCommand::MqttClose(MqttClientIdx::IDX1),
        AtCommand::CmgfSet(1),
        AtCommand::ConfigSave,
        AtCommand::GpsSet(OnOff::Off),
    ]
}

/// The commands that serve a request, in order.
pub open spec fn spec_client_commands(msg: Msg, ctx: ClientContext) -> Seq<AtCommand> {
    match msg {
        Msg::ModemInitReq => spec_init_commands(),
        Msg::GnssOpenReq => seq![AtCommand::GpsSet(OnOff::On)],
        Msg::GnssCloseReq => seq![AtCommand::GpsSet(OnOff::Off)],
        Msg::GnssGetLocationReq => seq![AtCommand::GpsGetLocation],
        Msg::NetAttachStatReq(Some(n)) => seq![AtCommand::CregSet(n)],
        Msg::NetAttachStatReq(None) => seq![AtCommand::CregQuery],
        Msg::NetSimStatReq => seq![AtCommand::SimQuery],
        Msg::NetGetTimeReq => seq![AtCommand::TimeQuery],
        Msg::MqttOpenReq => if ctx.has_server {
            seq![
                AtCommand::MqttVersionConfig(MqttClientIdx::IDX1, MqttVersion::V3_1_1),
                AtCommand::MqttOpen(MqttClientIdx::IDX1),
            ]
        } else {
            seq![AtCommand::MqttVersionConfig(MqttClientIdx::IDX1, MqttVersion::V3_1_1)]
        },
        Msg::MqttCloseReq => seq![AtCommand::MqttClose(MqttClientIdx::IDX1)],
        Msg::MqttConnReq => if ctx.has_login {
            seq![AtCommand::MqttConn(MqttClientIdx::IDX1)]
        } else {
            Seq::empty()
        },
        Msg::MqttPubReq => match ctx.pending {
            Some(item) => seq![AtCommand::MqttPublish(MqttClientIdx::IDX1, item)],
            None => Seq::empty(),
        },
        _ => Seq::empty(),
    }
}

/// The reply that the outcome of a request's last command gives rise to.
/// Power requests report success or failure; a position request reports the
/// position or its absence; registration, SIM and time queries report what
/// they brought and stay silent on failure; a login reports only its failure,
/// since its success arrives as a notification.
pub open spec fn spec_client_reply(msg: Msg, outcome: Outcome) -> Option<Msg> {
    match msg {
        Msg::GnssOpenReq => Some(Msg::GnssOpenRpy(!(outcome is Failed))),
        Msg::GnssCloseReq => Some(Msg::GnssCloseRpy(!(outcome is Failed))),
        Msg::GnssGetLocationReq => match outcome {
            Outcome::Location(fix) => Some(Msg::GnssGetLoactionRpy(Some(fix))),
            _ => Some(Msg::GnssGetLoactionRpy(None)),
        },
        Msg::NetAttachStatReq(None) => match outcome {
            Outcome::Registration { stat, lac, ci, act } => Some(
                Msg::NetAttachStatRpy { stat, lac, ci, act },
            ),
            _ => None,
        },
        Msg::NetSimStatReq => match outcome {
            Outcome::Sim(ready) => Some(Msg::NetSimStatRpy(ready)),
            _ => None,
        },
        Msg::NetGetTimeReq => match outcome {
            Outcome::Time(utc) => Some(Msg::NetGetTimeRpy(utc)),
            _ => None,
        },
        Msg::MqttConnReq => if outcome is Failed {
            Some(Msg::MqttConnRpy(false))
        } else {
            None
        },
        _ => None,
    }
}

/// The commands that bring the modem into its working configuration.
pub fn init_commands() -> (r: Vec<AtCommand>)
    ensures
        r@ == spec_init_commands(),
{
    let mut out: Vec<AtCommand> = Vec::new();
    out.push(AtCommand::EchoSet(OnOff::Off));
    out.push(AtCommand::UrcPortConfig);
    out.push(AtCommand::CregSet(2));
    out.push(AtCommand::MqttClose(MqttClientIdx::IDX1));
    out.push(AtCommand::CmgfSet(1));
    out.push(AtCommand::ConfigSave);
    out.push(AtCommand::GpsSet(OnOff::Off));
    proof {
        assert(out@ =~= spec_init_commands());
    }
    out
}

/// One step of the modem client: the commands that serve `msg`, in order.
pub fn pal_at_client_task(msg: &Msg, ctx: &ClientContext) -> (r: Vec<AtCommand>)
    ensures
        r@ == spec_client_commands(*msg, *ctx),
{
    let mut out: Vec<AtCommand> = Vec::new();
    match *msg {
        Msg::ModemInitReq => {
            return init_commands();
        },
        Msg::GnssOpenReq => {
            out.push(AtCommand::GpsSet(OnOff::On));
        },
        Msg::GnssCloseReq => {
            out.push(AtCommand::GpsSet(OnOff::Off));
        },
        Msg::GnssGetLocationReq => {
            out.push(AtCommand::GpsGetLocation);
        },
        Msg::NetAttachStatReq(Some(n)) => {
            out.push(AtCommand::CregSet(n));
        },
        Msg::NetAttachStatReq(None) => {
            out.push(AtCommand::CregQuery);
        },
        Msg::NetSimStatReq => {
            out.push(AtCommand::SimQuery);
        },
        Msg::NetGetTimeReq => {
            out.push(AtCommand::TimeQuery);
        },
        Msg::MqttOpenReq => {
            out.push(AtCommand::MqttVersionConfig(MqttClientIdx::IDX1, MqttVersion::V3_1_1));
            if ctx.has_server {
                out.push(AtCommand::MqttOpen(MqttClientIdx::IDX1));
            }
        },
        Msg::MqttCloseReq => {
            out.push(AtCommand::MqttClose(MqttClientIdx::IDX1));
        },
        Msg::MqttConnReq => {
            if ctx.has_login {
                out.push(AtCommand::MqttConn(MqttClientIdx::IDX1));
            }
        },
        Msg::MqttPubReq => {
            match ctx.pending {
                Some(item) => {
                    out.push(AtCommand::MqttPublish(MqttClientIdx::IDX1, item));
                },
                None => {},
            }
        },
        _ => {},
    }
    proof {
        assert(out@ =~= spec_client_commands(*msg, *ctx));
    }
    out
}

/// The reply to hand to the tasks once the last command of `msg` has ended in `outcome`.
pub fn pal_at_client_reply(msg: &Msg, outcome: &Outcome) -> (r: Option<Msg>)
    ensures
        r == spec_client_reply(*msg, *outcome),
{
    let failed = match *outcome {
        Outcome::Failed => true,
        _ => false,
    };
    match *msg {
        Msg::GnssOpenReq => Some(Msg::GnssOpenRpy(!failed)),
        Msg::GnssCloseReq => Some(Msg::GnssCloseRpy(!failed)),
        Msg::GnssGetLocationReq => match *outcome {
            Outcome::Location(fix) => Some(Msg::GnssGetLoactionRpy(Some(fix))),
            _ => Some(Msg::GnssGetLoactionRpy(None)),
        },
        Msg::NetAttachStatReq(None) => match *outcome {
            Outcome::Registration { stat, lac, ci, act } => Some(
                Msg::NetAttachStatRpy { stat, lac, ci, act },
            ),
            _ => None,
        },
        Msg::NetSimStatReq => match *outcome {
            Outcome::Sim(ready) => Some(Msg::NetSimStatRpy(ready)),
            _ => None,
        },
        Msg::NetGetTimeReq => match *outcome {
            Outcome::Time(utc) => Some(Msg::NetGetTimeRpy(utc)),
            _ => None,
        },
        Msg::MqttConnReq => if failed {
            Some(Msg::MqttConnRpy(false))
        } else {
            None
        },
        _ => None,
    }
}

} // verus!
