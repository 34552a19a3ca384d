//! The commands that configure the modem's MQTT stack.
use crate::command::{command, spec_at, spec_views, Arg, ArgSpec};
use crate::mqtt_types::{
    MqttCleanSession, MqttClientIdx, MqttEditMode, MqttPdPCid, MqttQos, MqttRecvLen, MqttRecvMode,
    MqttSendMode, MqttSslCtxIdx, MqttSslMode, MqttTimeOutNotice, MqttVersion, MqttViewMode,
    MqttWillFlag, MqttWillRetain,
};
use vstd::prelude::*;
use vstd::slice::slice_to_vec;
use vstd::string::StringSliceAdditionalSpecFns;

verus! {

/// `AT+QMTCFG="version",<client_idx>,<vsn>`: picks a client's protocol version.
#[derive(Debug, Clone, Copy, PartialEq, Eq, Structural)]
pub struct QMtCfgVersionSet {
    pub client_idx: u8,
    pub vsn: u8,
}

impl QMtCfgVersionSet {
    pub fn new(client_idx: MqttClientIdx, vsn: MqttVersion) -> (r: QMtCfgVersionSet)
        ensures
            r.client_idx == client_idx.spec_code(),
            r.vsn == vsn.spec_code(),
    {
        QMtCfgVersionSet { client_idx: client_idx.code(), vsn: vsn.code() }
    }

    /// The arguments of the command.
    pub open spec fn spec_args(self) -> Seq<ArgSpec> {
        seq![
            ArgSpec::Text("version".spec_bytes()),
            ArgSpec::Num(self.client_idx as u32),
            ArgSpec::Num(self.vsn as u32),
        ]
    }

    pub fn as_bytes(&self) -> (r: Vec<u8>)
        ensures
            r@ == spec_at("+QMTCFG".spec_bytes(), self.spec_args()),
    {
        let mut args: Vec<Arg> = Vec::new();
        args.push(Arg::Text(slice_to_vec("version".as_bytes())));
        args.push(Arg::Num(self.client_idx as u32));
        args.push(Arg::Num(self.vsn as u32));
        proof {
            assert(spec_views(args@) =~= self.spec_args());
        }
        command(true, "+QMTCFG", true, &args)
    }
}

/// `AT+QMTCFG="pdpcid",<client_idx>,<cid>`: picks a client's packet data context.
#[derive(Debug, Clone, Copy, PartialEq, Eq, Structural)]
pub struct QMtCfgPdpcidSet {
    pub client_idx: u8,
    pub cid: u8,
}

impl QMtCfgPdpcidSet {
    pub fn new(client_idx: MqttClientIdx, cid: MqttPdPCid) -> (r: QMtCfgPdpcidSet)
        ensures
            r.client_idx == client_idx.spec_code(),
            r.cid == cid.spec_code(),
    {
        QMtCfgPdpcidSet { client_idx: client_idx.code(), cid: cid.code() }
    }

    /// The arguments of the command.
    pub open spec fn spec_args(self) -> Seq<ArgSpec> {
        seq![
            ArgSpec::Text("pdpcid".spec_bytes()),
            ArgSpec::Num(self.client_idx as u32),
            ArgSpec::Num(self.cid as u32),
        ]
    }

    pub fn as_bytes(&self) -> (r: Vec<u8>)
        ensures
            r@ == spec_at("+QMTCFG".spec_bytes(), self.spec_args()),
    {
        let mut args: Vec<Arg> = Vec::new();
        args.push(Arg::Text(slice_to_vec("pdpcid".as_bytes())));
        args.push(Arg::Num(self.client_idx as u32));
        args.push(Arg::Num(self.cid as u32));
        proof {
            assert(spec_views(args@) =~= self.spec_args());
        }
        command(true, "+QMTCFG", true, &args)
    }
}

/// `AT+QMTCFG="ssl",<client_idx>,<ssl_enable>,<ssl_ctx_idx>`: picks plain or encrypted transport and the encryption context.
#[derive(Debug, Clone, Copy, PartialEq, Eq, Structural)]
pub struct QMtCfgSslSet {
    pub client_idx: u8,
    pub ssl_enable: u8,
    pub ssl_ctx_idx: u8,
}

impl QMtCfgSslSet {
    pub fn new(client_idx: MqttClientIdx, ssl_enable: MqttSslMode, ssl_ctx_idx: MqttSslCtxIdx) -> (r: QMtCfgSslSet)
        ensures
            r.client_idx == client_idx.spec_code(),
            r.ssl_enable == ssl_enable.spec_code(),
            r.ssl_ctx_idx == ssl_ctx_idx.spec_code(),
    {
        QMtCfgSslSet { client_idx: client_idx.code(), ssl_enable: ssl_enable.code(), ssl_ctx_idx: ssl_ctx_idx.code() }
    }

    /// The arguments of the command.
    pub open spec fn spec_args(self) -> Seq<ArgSpec> {
        seq![
            ArgSpec::Text("ssl".spec_bytes()),
            ArgSpec::Num(self.client_idx as u32),
            ArgSpec::Num(self.ssl_enable as u32),
            ArgSpec::Num(self.ssl_ctx_idx as u32),
        ]
    }

    pub fn as_bytes(&self) -> (r: Vec<u8>)
        ensures
            r@ == spec_at("+QMTCFG".spec_bytes(), self.spec_args()),
    {
        let mut args: Vec<Arg> = Vec::new();
        args.push(Arg::Text(slice_to_vec("ssl".as_bytes())));
        args.push(Arg::Num(self.client_idx as u32));
        args.push(Arg::Num(self.ssl_enable as u32));
        args.push(Arg::Num(self.ssl_ctx_idx as u32));
        proof {
            assert(spec_views(args@) =~= self.spec_args());
        }
        command(true, "+QMTCFG", true, &args)
    }
}

/// `AT+QMTCFG="keepalive",<client_idx>,<keep_alive_time>`: sets the keep-alive time in seconds; a time above 3600 is replaced by 120.
#[derive(Debug, Clone, Copy, PartialEq, Eq, Structural)]
pub struct QMtCfgKeepAliveSet {
    pub client_idx: u8,
    pub keep_alive_time: u16,
}

impl QMtCfgKeepAliveSet {
    pub fn new(client_idx: MqttClientIdx, keep_alive_time: u16) -> (r: QMtCfgKeepAliveSet)
        ensures
            r.client_idx == client_idx.spec_code(),
            r.keep_alive_time == if keep_alive_time > 3600 {
                120u16
            } else {
                keep_alive_time
            },
    {
        let keep_alive_time: u16 = if keep_alive_time > 3600 {
            120
        } else {
            keep_alive_time
        };
        QMtCfgKeepAliveSet { client_idx: client_idx.code(), keep_alive_time }
    }

    /// The arguments of the command.
    pub open spec fn spec_args(self) -> Seq<ArgSpec> {
        seq![
            ArgSpec::Text("keepalive".spec_bytes()),
            ArgSpec::Num(self.client_idx as u32),
            ArgSpec::Num(self.keep_alive_time as u32),
        ]
    }

    pub fn as_bytes(&self) -> (r: Vec<u8>)
        ensures
            r@ == spec_at("+QMTCFG".spec_bytes(), self.spec_args()),
    {
        let mut args: Vec<Arg> = Vec::new();
        args.push(Arg::Text(slice_to_vec("keepalive".as_bytes())));
        args.push(Arg::Num(self.client_idx as u32));
        args.push(Arg::Num(self.keep_alive_time as u32));
        proof {
            assert(spec_views(args@) =~= self.spec_args());
        }
        command(true, "+QMTCFG", true, &args)
    }
}

/// `AT+QMTCFG="session",<client_idx>,<clean_session>`: picks whether the broker forgets the session.
#[derive(Debug, Clone, Copy, PartialEq, Eq, Structural)]
pub struct QMtCfgSessionSet {
    pub client_idx: u8,
    pub clean_session: u8,
}

impl QMtCfgSessionSet {
    pub fn new(client_idx: MqttClientIdx, clean_session: MqttCleanSession) -> (r: QMtCfgSessionSet)
        ensures
            r.client_idx == client_idx.spec_code(),
            r.clean_session == clean_session.spec_code(),
    {
        QMtCfgSessionSet { client_idx: client_idx.code(), clean_session: clean_session.code() }
    }

    /// The arguments of the command.
    pub open spec fn spec_args(self) -> Seq<ArgSpec> {
        seq![
            ArgSpec::Text("session".spec_bytes()),
            ArgSpec::Num(self.client_idx as u32),
            ArgSpec::Num(self.clean_session as u32),
        ]
    }

    pub fn as_bytes(&self) -> (r: Vec<u8>)
        ensures
            r@ == spec_at("+QMTCFG".spec_bytes(), self.spec_args()),
    {
        let mut args: Vec<Arg> = Vec::new();
        args.push(Arg::Text(slice_to_vec("session".as_bytes())));
        args.push(Arg::Num(self.client_idx as u32));
        args.push(Arg::Num(self.clean_session as u32));
        proof {
            assert(spec_views(args@) =~= self.spec_args());
        }
        command(true, "+QMTCFG", true, &args)
    }
}

/// `AT+QMTCFG="timeout",<client_idx>,<pkt_timeout>,<retry_times>,<time_out_notice>`: sets the delivery timeout in seconds, the number of retries and whether a timeout is reported; a timeout outside 1 to 60 is replaced by 5, more than 10 retries by 3.
#[derive(Debug, Clone, Copy, PartialEq, Eq, Structural)]
pub struct QMtCfgTimeOutSet {
    pub client_idx: u8,
    pub pkt_timeout: u8,
    pub retry_times: u8,
    pub time_out_notice: u8,
}

impl QMtCfgTimeOutSet {
    pub fn new(client_idx: MqttClientIdx, pkt_timeout: u8, retry_times: u8, time_out_notice: MqttTimeOutNotice) -> (r: QMtCfgTimeOutSet)
        ensures
            r.client_idx == client_idx.spec_code(),
            r.pkt_timeout == if pkt_timeout < 1 || pkt_timeout > 60 {
                5u8
            } else {
                pkt_timeout
            },
            r.retry_times == if retry_times > 10 {
                3u8
            } else {
                retry_times
            },
            r.time_out_notice == time_out_notice.spec_code(),
    {
        let pkt_timeout: u8 = if pkt_timeout < 1 || pkt_timeout > 60 {
            5
        } else {
            pkt_timeout
        };
        let retry_times: u8 = if retry_times > 10 {
            3
        } else {
            retry_times
        };
        QMtCfgTimeOutSet { client_idx: client_idx.code(), pkt_timeout, retry_times, time_out_notice: time_out_notice.code() }
    }

    /// The arguments of the command.
    pub open spec fn spec_args(self) -> Seq<ArgSpec> {
        seq![
            ArgSpec::Text("timeout".spec_bytes()),
            ArgSpec::Num(self.client_idx as u32),
            ArgSpec::Num(self.pkt_timeout as u32),
            ArgSpec::Num(self.retry_times as u32),
            ArgSpec::Num(self.time_out_notice as u32),
        ]
    }

    pub fn as_bytes(&self) -> (r: Vec<u8>)
        ensures
            r@ == spec_at("+QMTCFG".spec_bytes(), self.spec_args()),
    {
        let mut args: Vec<Arg> = Vec::new();
        args.push(Arg::Text(slice_to_vec("timeout".as_bytes())));
        args.push(Arg::Num(self.client_idx as u32));
        args.push(Arg::Num(self.pkt_timeout as u32));
        args.push(Arg::Num(self.retry_times as u32));
        args.push(Arg::Num(self.time_out_notice as u32));
        proof {
            assert(spec_views(args@) =~= self.spec_args());
        }
        command(true, "+QMTCFG", true, &args)
    }
}

/// `AT+QMTCFG="will",<client_idx>,<will_fg>,<will_qos>,<will_retain>,<will_topic>,<will_message>`: sets the will message.
#[derive(Debug, Clone, Copy, PartialEq, Eq)]
pub struct QMtCfgWillSet<'a> {
    pub client_idx: u8,
    pub will_fg: u8,
    pub will_qos: u8,
    pub will_retain: u8,
    pub will_topic: &'a str,
    pub will_message: &'a str,
}

impl<'a> QMtCfgWillSet<'a> {
    pub fn new(client_idx: MqttClientIdx, will_fg: MqttWillFlag, will_qos: MqttQos, will_retain: MqttWillRetain, will_topic: &'a str, will_message: &'a str) -> (r: QMtCfgWillSet<'a>)
        ensures
            r.client_idx == client_idx.spec_code(),
            r.will_fg == will_fg.spec_code(),
            r.will_qos == will_qos.spec_code(),
            r.will_retain == will_retain.spec_code(),
            r.will_topic@ == will_topic@,
            r.will_message@ == will_message@,
    {
        QMtCfgWillSet { client_idx: client_idx.code(), will_fg: will_fg.code(), will_qos: will_qos.code(), will_retain: will_retain.code(), will_topic, will_message }
    }

    /// The arguments of the command.
    pub open spec fn spec_args(self) -> Seq<ArgSpec> {
        seq![
            ArgSpec::Text("will".spec_bytes()),
            ArgSpec::Num(self.client_idx as u32),
            ArgSpec::Num(self.will_fg as u32),
            ArgSpec::Num(self.will_qos as u32),
            ArgSpec::Num(self.will_retain as u32),
            ArgSpec::Text(self.will_topic.spec_bytes()),
            ArgSpec::Text(self.will_message.spec_bytes()),
        ]
    }

    pub fn as_bytes(&self) -> (r: Vec<u8>)
        ensures
            r@ == spec_at("+QMTCFG".spec_bytes(), self.spec_args()),
    {
        let mut args: Vec<Arg> = Vec::new();
        args.push(Arg::Text(slice_to_vec("will".as_bytes())));
        args.push(Arg::Num(self.client_idx as u32));
        args.push(Arg::Num(self.will_fg as u32));
        args.push(Arg::Num(self.will_qos as u32));
        args.push(Arg::Num(self.will_retain as u32));
        args.push(Arg::Text(slice_to_vec(self.will_topic.as_bytes())));
        args.push(Arg::Text(slice_to_vec(self.will_message.as_bytes())));
        proof {
            assert(spec_views(args@) =~= self.spec_args());
        }
        command(true, "+QMTCFG", true, &args)
    }
}

/// `AT+QMTCFG="willex",<client_idx>,<will_fg>,<will_qos>,<will_retain>,<will_topic>,<will_len>`: sets the will message by its length.
#[derive(Debug, Clone, Copy, PartialEq, Eq)]
pub struct QMtCfgWillexSet<'a> {
    pub client_idx: u8,
    pub will_fg: u8,
    pub will_qos: u8,
    pub will_retain: u8,
    pub will_topic: &'a str,
    pub will_len: u16,
}

impl<'a> QMtCfgWillexSet<'a> {
    pub fn new(client_idx: MqttClientIdx, will_fg: MqttWillFlag, will_qos: MqttQos, will_retain: MqttWillRetain, will_topic: &'a str, will_len: u16) -> (r: QMtCfgWillexSet<'a>)
        ensures
            r.client_idx == client_idx.spec_code(),
            r.will_fg == will_fg.spec_code(),
            r.will_qos == will_qos.spec_code(),
            r.will_retain == will_retain.spec_code(),
            r.will_topic@ == will_topic@,
            r.will_len == will_len,
    {
        QMtCfgWillexSet { client_idx: client_idx.code(), will_fg: will_fg.code(), will_qos: will_qos.code(), will_retain: will_retain.code(), will_topic, will_len }
    }

    /// The arguments of the command.
    pub open spec fn spec_args(self) -> Seq<ArgSpec> {
        seq![
            ArgSpec::Text("willex".spec_bytes()),
            ArgSpec::Num(self.client_idx as u32),
            ArgSpec::Num(self.will_fg as u32),
            ArgSpec::Num(self.will_qos as u32),
            ArgSpec::Num(self.will_retain as u32),
            ArgSpec::Text(self.will_topic.spec_bytes()),
            ArgSpec::Num(self.will_len as u32),
        ]
    }

    pub fn as_bytes(&self) -> (r: Vec<u8>)
        ensures
            r@ == spec_at("+QMTCFG".spec_bytes(), self.spec_args()),
    {
        let mut args: Vec<Arg> = Vec::new();
        args.push(Arg::Text(slice_to_vec("willex".as_bytes())));
        args.push(Arg::Num(self.client_idx as u32));
        args.push(Arg::Num(self.will_fg as u32));
        args.push(Arg::Num(self.will_qos as u32));
        args.push(Arg::Num(self.will_retain as u32));
        args.push(Arg::Text(slice_to_vec(self.will_topic.as_bytes())));
        args.push(Arg::Num(self.will_len as u32));
        proof {
            assert(spec_views(args@) =~= self.spec_args());
        }
        command(true, "+QMTCFG", true, &args)
    }
}

/// `AT+QMTCFG="recv/mode",<client_idx>,<msg_recv_mode>,<msg_len_enable>`: picks how received messages are reported.
#[derive(Debug, Clone, Copy, PartialEq, Eq, Structural)]
pub struct QMtCfgRecvModeSet {
    pub client_idx: u8,
    pub msg_recv_mode: u8,
    pub msg_len_enable: u8,
}

impl QMtCfgRecvModeSet {
    pub fn new(client_idx: MqttClientIdx, msg_recv_mode: MqttRecvMode, msg_len_enable: MqttRecvLen) -> (r: QMtCfgRecvModeSet)
        ensures
            r.client_idx == client_idx.spec_code(),
            r.msg_recv_mode == msg_recv_mode.spec_code(),
            r.msg_len_enable == msg_len_enable.spec_code(),
    {
        QMtCfgRecvModeSet { client_idx: client_idx.code(), msg_recv_mode: msg_recv_mode.code(), msg_len_enable: msg_len_enable.code() }
    }

    /// The arguments of the command.
    pub open spec fn spec_args(self) -> Seq<ArgSpec> {
        seq![
            ArgSpec::Text("recv/mode".spec_bytes()),
            ArgSpec::Num(self.client_idx as u32),
            ArgSpec::Num(self.msg_recv_mode as u32),
            ArgSpec::Num(self.msg_len_enable as u32),
        ]
    }

    pub fn as_bytes(&self) -> (r: Vec<u8>)
        ensures
            r@ == spec_at("+QMTCFG".spec_bytes(), self.spec_args()),
    {
        let mut args: Vec<Arg> = Vec::new();
        args.push(Arg::Text(slice_to_vec("recv/mode".as_bytes())));
        args.push(Arg::Num(self.client_idx as u32));
        args.push(Arg::Num(self.msg_recv_mode as u32));
        args.push(Arg::Num(self.msg_len_enable as u32));
        proof {
            assert(spec_views(args@) =~= self.spec_args());
        }
        command(true, "+QMTCFG", true, &args)
    }
}

/// `AT+QMTCFG="aliauth",<client_idx>,<product_key>,<device_name>,<device_secret>`: sets the device credentials of the Alibaba cloud.
#[derive(Debug, Clone, Copy, PartialEq, Eq)]
pub struct QMtCfgAliauthSet<'a> {
    pub client_idx: u8,
    pub product_key: &'a str,
    pub device_name: &'a str,
    pub device_secret: &'a str,
}

impl<'a> QMtCfgAliauthSet<'a> {
    pub fn new(client_idx: MqttClientIdx, product_key: &'a str, device_name: &'a str, device_secret: &'a str) -> (r: QMtCfgAliauthSet<'a>)
        ensures
            r.client_idx == client_idx.spec_code(),
            r.product_key@ == product_key@,
            r.device_name@ == device_name@,
            r.device_secret@ == device_secret@,
    {
        QMtCfgAliauthSet { client_idx: client_idx.code(), product_key, device_name, device_secret }
    }

    /// The arguments of the command.
    pub open spec fn spec_args(self) -> Seq<ArgSpec> {
        seq![
            ArgSpec::Text("aliauth".spec_bytes()),
            ArgSpec::Num(self.client_idx as u32),
            ArgSpec::Text(self.product_key.spec_bytes()),
            ArgSpec::Text(self.device_name.spec_bytes()),
            ArgSpec::Text(self.device_secret.spec_bytes()),
        ]
    }

    pub fn as_bytes(&self) -> (r: Vec<u8>)
        ensures
            r@ == spec_at("+QMTCFG".spec_bytes(), self.spec_args()),
    {
        let mut args: Vec<Arg> = Vec::new();
        args.push(Arg::Text(slice_to_vec("aliauth".as_bytes())));
        args.push(Arg::Num(self.client_idx as u32));
        args.push(Arg::Text(slice_to_vec(self.product_key.as_bytes())));
        args.push(Arg::Text(slice_to_vec(self.device_name.as_bytes())));
        args.push(Arg::Text(slice_to_vec(self.device_secret.as_bytes())));
        proof {
            assert(spec_views(args@) =~= self.spec_args());
        }
        command(true, "+QMTCFG", true, &args)
    }
}

/// `AT+QMTCFG="qmtping",<client_idx>,<qmtping_interval>`: sets the heartbeat interval in seconds; one outside 5 to 60 is replaced by 5.
#[derive(Debug, Clone, Copy, PartialEq, Eq, Structural)]
pub struct QMtCfgQmtpingSet {
    pub client_idx: u8,
    pub qmtping_interval: u8,
}

impl QMtCfgQmtpingSet {
    pub fn new(client_idx: MqttClientIdx, qmtping_interval: u8) -> (r: QMtCfgQmtpingSet)
        ensures
            r.client_idx == client_idx.spec_code(),
            r.qmtping_interval == if qmtping_interval < 5 || qmtping_interval > 60 {
                5u8
            } else {
                qmtping_interval
            },
    {
        let qmtping_interval: u8 = if qmtping_interval < 5 || qmtping_interval > 60 {
            5
        } else {
            qmtping_interval
        };
        QMtCfgQmtpingSet { client_idx: client_idx.code(), qmtping_interval }
    }

    /// The arguments of the command.
    pub open spec fn spec_args(self) -> Seq<ArgSpec> {
        seq![
            ArgSpec::Text("qmtping".spec_bytes()),
            ArgSpec::Num(self.client_idx as u32),
            ArgSpec::Num(self.qmtping_interval as u32),
        ]
    }

    pub fn as_bytes(&self) -> (r: Vec<u8>)
        ensures
            r@ == spec_at("+QMTCFG".spec_bytes(), self.spec_args()),
    {
        let mut args: Vec<Arg> = Vec::new();
        args.push(Arg::Text(slice_to_vec("qmtping".as_bytes())));
        args.push(Arg::Num(self.client_idx as u32));
        args.push(Arg::Num(self.qmtping_interval as u32));
        proof {
            assert(spec_views(args@) =~= self.spec_args());
        }
        command(true, "+QMTCFG", true, &args)
    }
}

/// `AT+QMTCFG="send/mode",<client_idx>,<send_mode>`: picks how payloads are written.
#[derive(Debug, Clone, Copy, PartialEq, Eq, Structural)]
pub struct QMtCfgSendModeSet {
    pub client_idx: u8,
    pub send_mode: u8,
}

impl QMtCfgSendModeSet {
    pub fn new(client_idx: MqttClientIdx, send_mode: MqttSendMode) -> (r: QMtCfgSendModeSet)
        ensures
            r.client_idx == client_idx.spec_code(),
            r.send_mode == send_mode.spec_code(),
    {
        QMtCfgSendModeSet { client_idx: client_idx.code(), send_mode: send_mode.code() }
    }

    /// The arguments of the command.
    pub open spec fn spec_args(self) -> Seq<ArgSpec> {
        seq![
            ArgSpec::Text("send/mode".spec_bytes()),
            ArgSpec::Num(self.client_idx as u32),
            ArgSpec::Num(self.send_mode as u32),
        ]
    }

    pub fn as_bytes(&self) -> (r: Vec<u8>)
        ensures
            r@ == spec_at("+QMTCFG".spec_bytes(), self.spec_args()),
    {
        let mut args: Vec<Arg> = Vec::new();
        args.push(Arg::Text(slice_to_vec("send/mode".as_bytes())));
        args.push(Arg::Num(self.client_idx as u32));
        args.push(Arg::Num(self.send_mode as u32));
        proof {
            assert(spec_views(args@) =~= self.spec_args());
        }
        command(true, "+QMTCFG", true, &args)
    }
}

/// `AT+QMTCFG="hwauth",<client_idx>,<product_id>,<device_secret>`: sets the device credentials of the Huawei cloud.
#[derive(Debug, Clone, Copy, PartialEq, Eq)]
pub struct QMtCfgHwauthSet<'a> {
    pub client_idx: u8,
    pub product_id: &'a str,
    pub device_secret: &'a str,
}

impl<'a> QMtCfgHwauthSet<'a> {
    pub fn new(client_idx: MqttClientIdx, product_id: &'a str, device_secret: &'a str) -> (r: QMtCfgHwauthSet<'a>)
        ensures
            r.client_idx == client_idx.spec_code(),
            r.product_id@ == product_id@,
            r.device_secret@ == device_secret@,
    {
        QMtCfgHwauthSet { client_idx: client_idx.code(), product_id, device_secret }
    }

    /// The arguments of the command.
    pub open spec fn spec_args(self) -> Seq<ArgSpec> {
        seq![
            ArgSpec::Text("hwauth".spec_bytes()),
            ArgSpec::Num(self.client_idx as u32),
            ArgSpec::Text(self.product_id.spec_bytes()),
            ArgSpec::Text(self.device_secret.spec_bytes()),
        ]
    }

    pub fn as_bytes(&self) -> (r: Vec<u8>)
        ensures
            r@ == spec_at("+QMTCFG".spec_bytes(), self.spec_args()),
    {
        let mut args: Vec<Arg> = Vec::new();
        args.push(Arg::Text(slice_to_vec("hwauth".as_bytes())));
        args.push(Arg::Num(self.client_idx as u32));
        args.push(Arg::Text(slice_to_vec(self.product_id.as_bytes())));
        args.push(Arg::Text(slice_to_vec(self.device_secret.as_bytes())));
        proof {
            assert(spec_views(args@) =~= self.spec_args());
        }
        command(true, "+QMTCFG", true, &args)
    }
}

/// `AT+QMTCFG="hwprodid",<client_idx>,<product_id>,<device_secret>,<nodeid>`: sets the product credentials of the Huawei cloud.
#[derive(Debug, Clone, Copy, PartialEq, Eq)]
pub struct QMtCfgHwprodidSet<'a> {
    pub client_idx: u8,
    pub product_id: &'a str,
    pub device_secret: &'a str,
    pub nodeid: &'a str,
}

impl<'a> QMtCfgHwprodidSet<'a> {
    pub fn new(client_idx: MqttClientIdx, product_id: &'a str, device_secret: &'a str, nodeid: &'a str) -> (r: QMtCfgHwprodidSet<'a>)
        ensures
            r.client_idx == client_idx.spec_code(),
            r.product_id@ == product_id@,
            r.device_secret@ == device_secret@,
            r.nodeid@ == nodeid@,
    {
        QMtCfgHwprodidSet { client_idx: client_idx.code(), product_id, device_secret, nodeid }
    }

    /// The arguments of the command.
    pub open spec fn spec_args(self) -> Seq<ArgSpec> {
        seq![
            ArgSpec::Text("hwprodid".spec_bytes()),
            ArgSpec::Num(self.client_idx as u32),
            ArgSpec::Text(self.product_id.spec_bytes()),
            ArgSpec::Text(self.device_secret.spec_bytes()),
            ArgSpec::Text(self.nodeid.spec_bytes()),
        ]
    }

    pub fn as_bytes(&self) -> (r: Vec<u8>)
        ensures
            r@ == spec_at("+QMTCFG".spec_bytes(), self.spec_args()),
    {
        let mut args: Vec<Arg> = Vec::new();
        args.push(Arg::Text(slice_to_vec("hwprodid".as_bytes())));
        args.push(Arg::Num(self.client_idx as u32));
        args.push(Arg::Text(slice_to_vec(self.product_id.as_bytes())));
        args.push(Arg::Text(slice_to_vec(self.device_secret.as_bytes())));
        args.push(Arg::Text(slice_to_vec(self.nodeid.as_bytes())));
        proof {
            assert(spec_views(args@) =~= self.spec_args());
        }
        command(true, "+QMTCFG", true, &args)
    }
}

/// `AT+QMTCFG="dataformat",<client_idx>,<send_mode>,<recv_mode>`: picks the format of sent and received payloads.
#[derive(Debug, Clone, Copy, PartialEq, Eq, Structural)]
pub struct QMtCfgDataFormatSet {
    pub client_idx: u8,
    pub send_mode: u8,
    pub recv_mode: u8,
}

impl QMtCfgDataFormatSet {
    pub fn new(client_idx: MqttClientIdx, send_mode: MqttSendMode, recv_mode: MqttRecvMode) -> (r: QMtCfgDataFormatSet)
        ensures
            r.client_idx == client_idx.spec_code(),
            r.send_mode == send_mode.spec_code(),
            r.recv_mode == recv_mode.spec_code(),
    {
        QMtCfgDataFormatSet { client_idx: client_idx.code(), send_mode: send_mode.code(), recv_mode: recv_mode.code() }
    }

    /// The arguments of the command.
    pub open spec fn spec_args(self) -> Seq<ArgSpec> {
        seq![
            ArgSpec::Text("dataformat".spec_bytes()),
            ArgSpec::Num(self.client_idx as u32),
            ArgSpec::Num(self.send_mode as u32),
            ArgSpec::Num(self.recv_mode as u32),
        ]
    }

    pub fn as_bytes(&self) -> (r: Vec<u8>)
        ensures
            r@ == spec_at("+QMTCFG".spec_bytes(), self.spec_args()),
    {
        let mut args: Vec<Arg> = Vec::new();
        args.push(Arg::Text(slice_to_vec("dataformat".as_bytes())));
        args.push(Arg::Num(self.client_idx as u32));
        args.push(Arg::Num(self.send_mode as u32));
        args.push(Arg::Num(self.recv_mode as u32));
        proof {
            assert(spec_views(args@) =~= self.spec_args());
        }
        command(true, "+QMTCFG", true, &args)
    }
}

/// `AT+QMTCFG="view/mode",<client_idx>,<view_mode>`: picks whether input is echoed.
#[derive(Debug, Clone, Copy, PartialEq, Eq, Structural)]
pub struct QMtCfgViewModeSet {
    pub client_idx: u8,
    pub view_mode: u8,
}

impl QMtCfgViewModeSet {
    pub fn new(client_idx: MqttClientIdx, view_mode: MqttViewMode) -> (r: QMtCfgViewModeSet)
        ensures
            r.client_idx == client_idx.spec_code(),
            r.view_mode == view_mode.spec_code(),
    {
        QMtCfgViewModeSet { client_idx: client_idx.code(), view_mode: view_mode.code() }
    }

    /// The arguments of the command.
    pub open spec fn spec_args(self) -> Seq<ArgSpec> {
        seq![
            ArgSpec::Text("view/mode".spec_bytes()),
            ArgSpec::Num(self.client_idx as u32),
            ArgSpec::Num(self.view_mode as u32),
        ]
    }

    pub fn as_bytes(&self) -> (r: Vec<u8>)
        ensures
            r@ == spec_at("+QMTCFG".spec_bytes(), self.spec_args()),
    {
        let mut args: Vec<Arg> = Vec::new();
        args.push(Arg::Text(slice_to_vec("view/mode".as_bytes())));
        args.push(Arg::Num(self.client_idx as u32));
        args.push(Arg::Num(self.view_mode as u32));
        proof {
            assert(spec_views(args@) =~= self.spec_args());
        }
        command(true, "+QMTCFG", true, &args)
    }
}

/// `AT+QMTCFG="edit/timeout",<client_idx>,<edit_mode>,<edit_time>`: picks whether entering a payload times out and after how many seconds; a time outside 1 to 120 is replaced by 30.
#[derive(Debug, Clone, Copy, PartialEq, Eq, Structural)]
pub struct QMtCfgEditTimeoutSet {
    pub client_idx: u8,
    pub edit_mode: u8,
    pub edit_time: u8,
}

impl QMtCfgEditTimeoutSet {
    pub fn new(client_idx: MqttClientIdx, edit_mode: MqttEditMode, edit_time: u8) -> (r: QMtCfgEditTimeoutSet)
        ensures
            r.client_idx == client_idx.spec_code(),
            r.edit_mode == edit_mode.spec_code(),
            r.edit_time == if edit_time < 1 || edit_time > 120 {
                30u8
            } else {
                edit_time
            },
    {
        let edit_time: u8 = if edit_time < 1 || edit_time > 120 {
            30
        } else {
            edit_time
        };
        QMtCfgEditTimeoutSet { client_idx: client_idx.code(), edit_mode: edit_mode.code(), edit_time }
    }

    /// The arguments of the command.
    pub open spec fn spec_args(self) -> Seq<ArgSpec> {
        seq![
            ArgSpec::Text("edit/timeout".spec_bytes()),
            ArgSpec::Num(self.client_idx as u32),
            ArgSpec::Num(self.edit_mode as u32),
            ArgSpec::Num(self.edit_time as u32),
        ]
    }

    pub fn as_bytes(&self) -> (r: Vec<u8>)
        ensures
            r@ == spec_at("+QMTCFG".spec_bytes(), self.spec_args()),
    {
        let mut args: Vec<Arg> = Vec::new();
        args.push(Arg::Text(slice_to_vec("edit/timeout".as_bytes())));
        args.push(Arg::Num(self.client_idx as u32));
        args.push(Arg::Num(self.edit_mode as u32));
        args.push(Arg::Num(self.edit_time as u32));
        proof {
            assert(spec_views(args@) =~= self.spec_args());
        }
        command(true, "+QMTCFG", true, &args)
    }
}

} // verus!
