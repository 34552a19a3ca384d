//! The messages that the tasks of the device exchange, and where each goes.
use crate::storage::FmlGnssRawData;
use crate::urc::URCMessages;
use vstd::prelude::*;

verus! {

/// A request to a driver task or the reply to one.
#[derive(Debug, Clone, Copy, PartialEq, Eq)]
pub enum Msg {
    Empty,
    GnssOpenReq,
    GnssOpenRpy(bool),
    GnssCloseReq,
    GnssCloseRpy(bool),
    GnssGetLocationReq,
    GnssGetLoactionRpy(Option<FmlGnssRawData>),
    NetSimStatReq,
    NetSimStatRpy(bool),
    NetAttachStatReq(Option<u8>),
    NetAttachStatRpy { stat: u8, lac: Option<u16>, ci: Option<u32>, act: Option<u8> },
    NetGetTimeReq,
    /// Network time in seconds since the epoch, UTC.
    NetGetTimeRpy(i64),
    MqttOpenReq,
    MqttOpenRpy(bool),
    MqttConnReq,
    MqttConnRpy(bool),
    MqttPubReq,
    MqttPubRpy(bool),
    MqttCloseReq,
    MqttCloseRpy(bool),
    MqttEvent,
    ModemReady,
    ModemInitReq,
    TsensorGetReq,
    /// Temperature in hundredths of a degree Celsius, humidity in hundredths of a percent.
    TsensorGetRpy { temp: i32, humi: i32 },
    GsensorVibEvent,
}

/// The subsystem that a message belongs to.
#[derive(Debug, Clone, Copy, PartialEq, Eq, Structural)]
pub enum Category {
    Gnss,
    Net,
    Mqtt,
    Modem,
    Tsensor,
    Gsensor,
    Unrouted,
}

/// The task queues that messages are delivered to.
#[derive(Debug, Clone, Copy, PartialEq, Eq, Structural)]
pub enum Queue {
    /// Commands for the modem.
    Modem,
    /// Commands for the temperature sensor.
    Tsensor,
    /// Temperature and humidity samples.
    Temp,
    /// Motion events.
    Acc,
    /// Attach and session events.
    NetStatus,
    /// Publish requests and acknowledgements.
    NetSend,
    /// GNSS power events.
    GnssControl,
    /// Position fixes.
    GnssData,
}

impl Msg {
    pub open spec fn spec_category(self) -> Category {
        match self {
            Msg::GnssOpenReq
            | Msg::GnssOpenRpy(_)
            | Msg::GnssCloseReq
            | Msg::GnssCloseRpy(_)
            | Msg::GnssGetLocationReq
            | Msg::GnssGetLoactionRpy(_) => Category::Gnss,
            Msg::NetSimStatReq
            | Msg::NetSimStatRpy(_)
            | Msg::NetAttachStatReq(_)
            | Msg::NetAttachStatRpy { .. }
            | Msg::NetGetTimeReq
            | Msg::NetGetTimeRpy(_) => Category::Net,
            Msg::MqttOpenReq
            | Msg::MqttOpenRpy(_)
            | Msg::MqttConnReq
            | Msg::MqttConnRpy(_)
            | Msg::MqttPubReq
            | Msg::MqttPubRpy(_)
            | Msg::MqttCloseReq
            | Msg::MqttCloseRpy(_)
            | Msg::MqttEvent => Category::Mqtt,
            Msg::ModemReady | Msg::ModemInitReq => Category::Modem,
            Msg::TsensorGetReq | Msg::TsensorGetRpy { .. } => Category::Tsensor,
            Msg::GsensorVibEvent => Category::Gsensor,
            Msg::Empty => Category::Unrouted,
        }
    }

    /// The subsystem that the message belongs to.
    pub fn category(&self) -> (r: Category)
        ensures
            r == self.spec_category(),
    {
        match self {
            Msg::GnssOpenReq
            | Msg::GnssOpenRpy(_)
            | Msg::GnssCloseReq
            | Msg::GnssCloseRpy(_)
            | Msg::GnssGetLocationReq
            | Msg::GnssGetLoactionRpy(_) => Category::Gnss,
            Msg::NetSimStatReq
            | Msg::NetSimStatRpy(_)
            | Msg::NetAttachStatReq(_)
            | Msg::NetAttachStatRpy { .. }
            | Msg::NetGetTimeReq
            | Msg::NetGetTimeRpy(_) => Category::Net,
            Msg::MqttOpenReq
            | Msg::MqttOpenRpy(_)
            | Msg::MqttConnReq
            | Msg::MqttConnRpy(_)
            | Msg::MqttPubReq
            | Msg::MqttPubRpy(_)
            | Msg::MqttCloseReq
            | Msg::MqttCloseRpy(_)
            | Msg::MqttEvent => Category::Mqtt,
            Msg::ModemReady | Msg::ModemInitReq => Category::Modem,
            Msg::TsensorGetReq | Msg::TsensorGetRpy { .. } => Category::Tsensor,
            Msg::GsensorVibEvent => Category::Gsensor,
            Msg::Empty => Category::Unrouted,
        }
    }
}

/// Where a request goes: GNSS, network and session requests to the modem,
/// sensor requests to the temperature sensor, anything else nowhere.
pub open spec fn spec_msg_req(msg: Msg) -> Option<Queue> {
    match msg.spec_category() {
        Category::Gnss | Category::Net | Category::Mqtt => Some(Queue::Modem),
        Category::Tsensor => Some(Queue::Tsensor),
        _ => None,
    }
}

/// Where the network tasks take a reply: publish acknowledgements to the
/// sender, attach, time and session replies and the ready banner to the
/// status task.
pub open spec fn spec_net_rpy(msg: Msg) -> Option<Queue> {
    match msg {
        Msg::NetAttachStatRpy { .. }
        | Msg::NetSimStatRpy(_)
        | Msg::NetGetTimeRpy(_)
        | Msg::MqttOpenRpy(_)
        | Msg::MqttConnRpy(_)
        | Msg::MqttCloseRpy(_)
        | Msg::ModemReady => Some(Queue::NetStatus),
        Msg::MqttPubRpy(_) => Some(Queue::NetSend),
        _ => None,
    }
}

/// Where the GNSS tasks take a reply: fixes to the filter, all else to the controller.
pub open spec fn spec_gnss_rpy(msg: Msg) -> Queue {
    match msg {
        Msg::GnssGetLoactionRpy(_) => Queue::GnssData,
        _ => Queue::GnssControl,
    }
}

/// The queues that a reply is delivered to, in order. The ready banner goes
/// to the GNSS controller and then to the network status task.
pub open spec fn spec_msg_rpy(msg: Msg) -> Seq<Queue> {
    match msg.spec_category() {
        Category::Tsensor => seq![Queue::Temp],
        Category::Gsensor => seq![Queue::Acc],
        Category::Net | Category::Mqtt => match spec_net_rpy(msg) {
            Some(q) => seq![q],
            None => Seq::empty(),
        },
        Category::Gnss => seq![spec_gnss_rpy(msg)],
        Category::Modem => if msg == Msg::ModemReady {
            seq![Queue::GnssControl, Queue::NetStatus]
        } else {
            Seq::empty()
        },
        Category::Unrouted => Seq::empty(),
    }
}

/// Routes a request to the driver task that serves it.
pub fn msg_req(msg: &Msg) -> (r: Option<Queue>)
    ensures
        r == spec_msg_req(*msg),
{
    match msg.category() {
        Category::Gnss | Category::Net | Category::Mqtt => Some(Queue::Modem),
        Category::Tsensor => Some(Queue::Tsensor),
        _ => None,
    }
}

fn net_rpy(msg: &Msg) -> (r: Option<Queue>)
    ensures
        r == spec_net_rpy(*msg),
{
    match msg {
        Msg::NetAttachStatRpy { .. }
        | Msg::NetSimStatRpy(_)
        | Msg::NetGetTimeRpy(_)
        | Msg::MqttOpenRpy(_)
        | Msg::MqttConnRpy(_)
        | Msg::MqttCloseRpy(_)
        | Msg::ModemReady => Some(Queue::NetStatus),
        Msg::MqttPubRpy(_) => Some(Queue::NetSend),
        _ => None,
    }
}

/// Routes a reply to the task queues that take it.
pub fn msg_rpy(msg: &Msg) -> (r: Vec<Queue>)
    ensures
        r@ == spec_msg_rpy(*msg),
{
    let mut out: Vec<Queue> = Vec::new();
    match msg.category() {
        Category::Tsensor => {
            out.push(Queue::Temp);
        },
        Category::Gsensor => {
            out.push(Queue::Acc);
        },
        Category::Net | Category::Mqtt => {
            match net_rpy(msg) {
                Some(q) => {
                    out.push(q);
                },
                None => {},
            }
        },
        Category::Gnss => {
            match msg {
                Msg::GnssGetLoactionRpy(_) => {
                    out.push(Queue::GnssData);
                },
                _ => {
                    out.push(Queue::GnssControl);
                },
            }
        },
        Category::Modem => {
            match msg {
                Msg::ModemReady => {
                    out.push(Queue::GnssControl);
                    out.push(Queue::NetStatus);
                },
                _ => {},
            }
        },
        Category::Unrouted => {},
    }
    proof {
        assert(out@ =~= spec_msg_rpy(*msg));
    }
    out
}

/// What the device does on an unsolicited notification: the request it
/// makes of the modem, if any, and the reply it hands to the tasks, if any.
/// A result code is reduced to success or failure: opening succeeds on 0
/// and on 2, logging in and publishing on 0.
pub open spec fn spec_urc_msgs(urc: URCMessages) -> (Option<Msg>, Option<Msg>) {
    match urc {
        URCMessages::QmtOpen { client_idx, result } => (
            None,
            Some(Msg::MqttOpenRpy(result == 0 || result == 2)),
        ),
        URCMessages::CREG { stat, lac, ci, act } => (
            None,
            Some(Msg::NetAttachStatRpy { stat, lac: Some(lac), ci: Some(ci), act: Some(act) }),
        ),
        URCMessages::QmtConn { client_idx, result, ret_code } => (
            None,
            Some(Msg::MqttConnRpy(result == 0)),
        ),
        URCMessages::QmtPubex { client_idx, result, ret_code } => (
            None,
            Some(Msg::MqttPubRpy(result == 0)),
        ),
        URCMessages::RDY => (Some(Msg::ModemInitReq), Some(Msg::ModemReady)),
        _ => (None, None),
    }
}

/// Turns an unsolicited notification into the messages that it gives rise to.
pub fn pal_at_urc_task(urc: &URCMessages) -> (r: (Option<Msg>, Option<Msg>))
    ensures
        r == spec_urc_msgs(*urc),
{
    match *urc {
        URCMessages::QmtOpen { client_idx: _, result } => (
            None,
            Some(Msg::MqttOpenRpy(result == 0 || result == 2)),
        ),
        URCMessages::CREG { stat, lac, ci, act } => (
            None,
            Some(Msg::NetAttachStatRpy { stat, lac: Some(lac), ci: Some(ci), act: Some(act) }),
        ),
        URCMessages::QmtConn { client_idx: _, result, ret_code: _ } => (
            None,
            Some(Msg::MqttConnRpy(result == 0)),
        ),
        URCMessages::QmtPubex { client_idx: _, result, ret_code: _ } => (
            None,
            Some(Msg::MqttPubRpy(result == 0)),
        ),
        URCMessages::RDY => (Some(Msg::ModemInitReq), Some(Msg::ModemReady)),
        _ => (None, None),
    }
}

} // verus!
