//! Network attach and session orchestration: two coupled state machines
//! that turn modem replies into the next requests.
use crate::msg::Msg;
use crate::storage::{FmlNetAttachStatus, FmlNetConnStatus};
use vstd::prelude::*;

verus! {

/// A side effect that the orchestrator asks for.
#[derive(Debug, Clone, Copy, PartialEq, Eq)]
pub enum NetAction {
    /// Hand this request to the modem.
    Request(Msg),
    /// Tell the delivery queue to attempt a publish.
    PublishSignal,
    /// Offer this network time, in seconds since the epoch, to the system clock.
    SetTimeFromNet(i64),
}

/// Failed attempts after which the orchestrator stops retrying.
pub const FML_NET_RETRY_MAX: u32 = 3;

/// The orchestrator's state: attach state, session state and the count of
/// failed attempts since the last success.
#[derive(Debug, Clone, Copy, PartialEq, Eq)]
pub struct FmlNet {
    pub att_status: FmlNetAttachStatus,
    pub conn_status: FmlNetConnStatus,
    pub retry: u32,
}

/// The request that entering a session state gives rise to.
pub open spec fn spec_conn_entry(new_status: FmlNetConnStatus) -> Seq<NetAction> {
    match new_status {
        FmlNetConnStatus::Connecting => seq![NetAction::Request(Msg::MqttOpenReq)],
        FmlNetConnStatus::Connected => seq![NetAction::Request(Msg::MqttConnReq)],
        FmlNetConnStatus::Logined => seq![NetAction::PublishSignal],
        _ => Seq::empty(),
    }
}

/// Setting the session state: nothing where it is already `new_status` and
/// the change is not forced, else the new state and its entry request.
pub open spec fn spec_conn_set(s: FmlNet, new_status: FmlNetConnStatus, force: bool) -> (
    FmlNet,
    Seq<NetAction>,
) {
    if s.conn_status == new_status && !force {
        (s, Seq::empty())
    } else {
        (FmlNet { conn_status: new_status, ..s }, spec_conn_entry(new_status))
    }
}

/// Setting the attach state: nothing where it is already `new_status` and
/// the change is not forced. Else the new state and what it gives rise to: a
/// SIM query without a SIM, a registration query with a SIM or without
/// service; with service, the session is opened if it is below `Connecting`,
/// and the network time is asked for where the clock has none yet.
pub open spec fn spec_att_set(
    s: FmlNet,
    new_status: FmlNetAttachStatus,
    force: bool,
    time_known: bool,
) -> (FmlNet, Seq<NetAction>) {
    if s.att_status == new_status && !force {
        (s, Seq::empty())
    } else {
        let s1 = FmlNet { att_status: new_status, ..s };
        match new_status {
            FmlNetAttachStatus::NoSim => (s1, seq![NetAction::Request(Msg::NetSimStatReq)]),
            FmlNetAttachStatus::SimReady | FmlNetAttachStatus::NoService => (
                s1,
                seq![NetAction::Request(Msg::NetAttachStatReq(None))],
            ),
            FmlNetAttachStatus::InCall => (s1, Seq::empty()),
            FmlNetAttachStatus::GSMService | FmlNetAttachStatus::LTEService => {
                let opened = if s1.conn_status.spec_rank()
                    < FmlNetConnStatus::Connecting.spec_rank() {
                    spec_conn_set(s1, FmlNetConnStatus::Connecting, false)
                } else {
                    (s1, Seq::empty())
                };
                let time = if time_known {
                    Seq::empty()
                } else {
                    seq![NetAction::Request(Msg::NetGetTimeReq)]
                };
                (opened.0, opened.1 + time)
            },
        }
    }
}

/// The attach state that a registration report stands for: registered (home
/// or roaming) with an access technology above 3 or with no cell data is
/// 4G service, with one up to 3 it is 2G service; anything else is no service.
pub open spec fn spec_attach_of(stat: u8, lac: Option<u16>, ci: Option<u32>, act: Option<u8>)
    -> FmlNetAttachStatus {
    if stat == 1 || stat == 5 {
        if lac is Some && ci is Some && act is Some && act->0 <= 3 {
            FmlNetAttachStatus::GSMService
        } else {
            FmlNetAttachStatus::LTEService
        }
    } else {
        FmlNetAttachStatus::NoService
    }
}

pub open spec fn spec_bump(retry: u32) -> u32 {
    if retry < u32::MAX {
        (retry + 1) as u32
    } else {
        retry
    }
}

/// A failed attempt: the count goes up, and while it is below the limit the
/// session state `again` is entered anew, which repeats its request.
pub open spec fn spec_retry(s: FmlNet, again: FmlNetConnStatus) -> (FmlNet, Seq<NetAction>) {
    let s1 = FmlNet { retry: spec_bump(s.retry), ..s };
    if s1.retry < FML_NET_RETRY_MAX {
        spec_conn_set(s1, again, true)
    } else {
        (s1, Seq::empty())
    }
}

/// One step of the orchestrator: the state after `msg` and the side effects
/// that the step asks for, in order.
pub open spec fn spec_step(s: FmlNet, msg: Msg, time_known: bool) -> (FmlNet, Seq<NetAction>) {
    match msg {
        Msg::ModemReady => {
            let down = spec_conn_set(s, FmlNetConnStatus::Down, true);
            let none = spec_att_set(down.0, FmlNetAttachStatus::NoSim, true, time_known);
            (none.0, down.1 + none.1)
        },
        Msg::NetAttachStatRpy { stat, lac, ci, act } => spec_att_set(
            s,
            spec_attach_of(stat, lac, ci, act),
            false,
            time_known,
        ),
        Msg::NetSimStatRpy(ready) => if ready {
            spec_att_set(
                FmlNet { retry: 0, ..s },
                FmlNetAttachStatus::SimReady,
                false,
                time_known,
            )
        } else {
            spec_att_set(s, FmlNetAttachStatus::NoSim, true, time_known)
        },
        Msg::NetGetTimeRpy(utc) => (s, seq![NetAction::SetTimeFromNet(utc)]),
        Msg::MqttOpenRpy(open) => if open {
            spec_conn_set(FmlNet { retry: 0, ..s }, FmlNetConnStatus::Connected, false)
        } else {
            spec_retry(s, FmlNetConnStatus::Connecting)
        },
        Msg::MqttConnRpy(conn) => if conn {
            spec_conn_set(FmlNet { retry: 0, ..s }, FmlNetConnStatus::Logined, false)
        } else {
            spec_retry(s, FmlNetConnStatus::Connected)
        },
        _ => (s, Seq::empty()),
    }
}

impl FmlNet {
    /// The state at startup: no SIM, session down, no failed attempt.
    pub fn new() -> (r: FmlNet)
        ensures
            r == (FmlNet {
                att_status: FmlNetAttachStatus::NoSim,
                conn_status: FmlNetConnStatus::Down,
                retry: 0,
            }),
    {
        FmlNet {
            att_status: FmlNetAttachStatus::NoSim,
            conn_status: FmlNetConnStatus::Down,
            retry: 0,
        }
    }

    /// What the status task does first: it enters `NoSim` by force, which asks for the SIM's state.
    pub fn start(&mut self, time_known: bool, actions: &mut Vec<NetAction>)
        ensures
            *final(self) == spec_att_set(*old(self), FmlNetAttachStatus::NoSim, true, time_known).0,
            final(actions)@ == old(actions)@ + spec_att_set(
                *old(self),
                FmlNetAttachStatus::NoSim,
                true,
                time_known,
            ).1,
    {
        self.fml_net_att_status_set(FmlNetAttachStatus::NoSim, true, time_known, actions);
    }

    /// Sets the session state and appends the request that entering it gives rise to.
    pub fn fml_net_conn_status_set(
        &mut self,
        new_status: FmlNetConnStatus,
        force: bool,
        actions: &mut Vec<NetAction>,
    )
        ensures
            *final(self) == spec_conn_set(*old(self), new_status, force).0,
            final(actions)@ == old(actions)@ + spec_conn_set(*old(self), new_status, force).1,
            old(self).conn_status == new_status && !force ==> *final(self) == *old(self)
                && final(actions)@ == old(actions)@,
    {
        if self.conn_status == new_status && !force {
            proof {
                assert(old(actions)@ + Seq::<NetAction>::empty() =~= old(actions)@);
            }
            return ;
        }
        self.conn_status = new_status;
        match new_status {
            FmlNetConnStatus::Connecting => {
                actions.push(NetAction::Request(Msg::MqttOpenReq));
            },
            FmlNetConnStatus::Connected => {
                actions.push(NetAction::Request(Msg::MqttConnReq));
            },
            FmlNetConnStatus::Logined => {
                actions.push(NetAction::PublishSignal);
            },
            _ => {},
        }
        proof {
            assert(actions@ =~= old(actions)@ + spec_conn_entry(new_status));
        }
    }

    /// Sets the attach state and appends the requests that entering it gives
    /// rise to. `time_known` says whether the system clock has been set.
    pub fn fml_net_att_status_set(
        &mut self,
        new_status: FmlNetAttachStatus,
        force: bool,
        time_known: bool,
        actions: &mut Vec<NetAction>,
    )
        ensures
            *final(self) == spec_att_set(*old(self), new_status, force, time_known).0,
            final(actions)@ == old(actions)@ + spec_att_set(
                *old(self),
                new_status,
                force,
                time_known,
            ).1,
            old(self).att_status == new_status && !force ==> *final(self) == *old(self)
                && final(actions)@ == old(actions)@,
    {
        if self.att_status == new_status && !force {
            proof {
                assert(old(actions)@ + Seq::<NetAction>::empty() =~= old(actions)@);
            }
            return ;
        }
        self.att_status = new_status;
        match new_status {
            FmlNetAttachStatus::NoSim => {
                actions.push(NetAction::Request(Msg::NetSimStatReq));
            },
            FmlNetAttachStatus::SimReady | FmlNetAttachStatus::NoService => {
                actions.push(NetAction::Request(Msg::NetAttachStatReq(None)));
            },
            FmlNetAttachStatus::InCall => {},
            FmlNetAttachStatus::GSMService | FmlNetAttachStatus::LTEService => {
                if self.conn_status.rank() < FmlNetConnStatus::Connecting.rank() {
                    self.fml_net_conn_status_set(FmlNetConnStatus::Connecting, false, actions);
                }
                if !time_known {
                    actions.push(NetAction::Request(Msg::NetGetTimeReq));
                }
            },
        }
        proof {
            assert(actions@ =~= old(actions)@ + spec_att_set(
                *old(self),
                new_status,
                force,
                time_known,
            ).1);
        }
    }

    fn retry_or_freeze(&mut self, again: FmlNetConnStatus, actions: &mut Vec<NetAction>)
        ensures
            *final(self) == spec_retry(*old(self), again).0,
            final(actions)@ == old(actions)@ + spec_retry(*old(self), again).1,
    {
        if self.retry < u32::MAX {
            self.retry = self.retry + 1;
        }
        if self.retry < FML_NET_RETRY_MAX {
            self.fml_net_conn_status_set(again, true, actions);
        } else {
            proof {
                assert(old(actions)@ + Seq::<NetAction>::empty() =~= old(actions)@);
            }
        }
    }

    /// One step of the status task: takes a reply, moves the two state
    /// machines and appends the side effects to carry out, in order.
    pub fn fml_net_status_task(&mut self, msg: &Msg, time_known: bool, actions: &mut Vec<NetAction>)
        ensures
            *final(self) == spec_step(*old(self), *msg, time_known).0,
            final(actions)@ == old(actions)@ + spec_step(*old(self), *msg, time_known).1,
    {
        match *msg {
            Msg::ModemReady => {
                self.fml_net_conn_status_set(FmlNetConnStatus::Down, true, actions);
                self.fml_net_att_status_set(FmlNetAttachStatus::NoSim, true, time_known, actions);
            },
            Msg::NetAttachStatRpy { stat, lac, ci, act } => {
                let target = attach_of(stat, lac, ci, act);
                self.fml_net_att_status_set(target, false, time_known, actions);
            },
            Msg::NetSimStatRpy(ready) => {
                if ready {
                    self.retry = 0;
                    self.fml_net_att_status_set(
                        FmlNetAttachStatus::SimReady,
                        false,
                        time_known,
                        actions,
                    );
                } else {
                    self.fml_net_att_status_set(FmlNetAttachStatus::NoSim, true, time_known, actions);
                }
            },
            Msg::NetGetTimeRpy(utc) => {
                actions.push(NetAction::SetTimeFromNet(utc));
            },
            Msg::MqttOpenRpy(open) => {
                if open {
                    self.retry = 0;
                    self.fml_net_conn_status_set(FmlNetConnStatus::Connected, false, actions);
                } else {
                    self.retry_or_freeze(FmlNetConnStatus::Connecting, actions);
                }
            },
            Msg::MqttConnRpy(conn) => {
                if conn {
                    self.retry = 0;
                    self.fml_net_conn_status_set(FmlNetConnStatus::Logined, false, actions);
                } else {
                    self.retry_or_freeze(FmlNetConnStatus::Connected, actions);
                }
            },
            _ => {},
        }
        proof {
            assert(actions@ =~= old(actions)@ + spec_step(*old(self), *msg, time_known).1);
        }
    }
}

/// The attach state that a registration report stands for.
pub fn attach_of(stat: u8, lac: Option<u16>, ci: Option<u32>, act: Option<u8>) -> (r:
    FmlNetAttachStatus)
    ensures
        r == spec_attach_of(stat, lac, ci, act),
{
    if stat == 1 || stat == 5 {
        match (lac, ci, act) {
            (Some(_), Some(_), Some(a)) => if a > 3 {
                FmlNetAttachStatus::LTEService
            } else {
                FmlNetAttachStatus::GSMService
            },
            _ => FmlNetAttachStatus::LTEService,
        }
    } else {
        FmlNetAttachStatus::NoService
    }
}

/// The request that opens the session's network connection.
pub fn fml_net_mqtt_open() -> (r: Msg)
    ensures
        r == Msg::MqttOpenReq,
{
    Msg::MqttOpenReq
}

/// The request that logs the session in.
pub fn fml_net_mqtt_connect() -> (r: Msg)
    ensures
        r == Msg::MqttConnReq,
{
    Msg::MqttConnReq
}

/// The signal that asks the delivery queue for a publish attempt.
pub fn fml_net_mqtt_pub_req() -> (r: Msg)
    ensures
        r == Msg::MqttPubReq,
{
    Msg::MqttPubReq
}

/// The current attach state.
pub fn fml_net_att_status_get(net: &FmlNet) -> (r: FmlNetAttachStatus)
    ensures
        r == net.att_status,
{
    net.att_status
}

/// The current session state.
pub fn fml_net_conn_status_get(net: &FmlNet) -> (r: FmlNetConnStatus)
    ensures
        r == net.conn_status,
{
    net.conn_status
}

/// Setting either state to the value it has, unforced, changes nothing and
/// asks for nothing.
pub proof fn lemma_set_is_idempotent(s: FmlNet, time_known: bool)
    ensures
        spec_att_set(s, s.att_status, false, time_known) == (s, Seq::<NetAction>::empty()),
        spec_conn_set(s, s.conn_status, false) == (s, Seq::<NetAction>::empty()),
{
}

/// Setting the attach state asks for the session to be opened only on
/// entering 2G or 4G service while the session is below `Connecting`.
pub proof fn lemma_open_only_on_service(
    s: FmlNet,
    new_status: FmlNetAttachStatus,
    force: bool,
    time_known: bool,
)
    ensures
        spec_att_set(s, new_status, force, time_known).1.contains(
            NetAction::Request(Msg::MqttOpenReq),
        ) <==> (s.att_status != new_status || force) && (new_status
            == FmlNetAttachStatus::GSMService || new_status == FmlNetAttachStatus::LTEService)
            && s.conn_status == FmlNetConnStatus::Down,
{
    let r = spec_att_set(s, new_status, force, time_known).1;
    let open = NetAction::Request(Msg::MqttOpenReq);
    if r.contains(open) {
        let i = choose|i: int| 0 <= i < r.len() && r[i] == open;
        assert(r[i] == open);
    }
    if (s.att_status != new_status || force) && (new_status == FmlNetAttachStatus::GSMService
        || new_status == FmlNetAttachStatus::LTEService) && s.conn_status
        == FmlNetConnStatus::Down {
        assert(r[0] == open);
    }
}

/// After three failed attempts in a row the orchestrator asks for nothing more.
pub proof fn lemma_frozen_after_three(s: FmlNet, again: FmlNetConnStatus)
    requires
        s.retry >= 2,
    ensures
        spec_retry(s, again).1 == Seq::<NetAction>::empty(),
        spec_retry(s, again).0.conn_status == s.conn_status,
        spec_retry(s, again).0.att_status == s.att_status,
{
}

} // verus!
