//! The ordinal states of the device and the telemetry records it produces.
//!
//! Physical quantities are held in fixed point: degrees of latitude and
//! longitude in millionths, every other quantity in hundredths of its unit.
use crate::command::push_all;
use vstd::prelude::*;
use vstd::string::StringSliceAdditionalSpecFns;

verus! {

/// Radio attach state, ordered by `rank`.
#[derive(Debug, Clone, Copy, PartialEq, Eq, Structural)]
pub enum FmlNetAttachStatus {
    NoSim,
    SimReady,
    NoService,
    InCall,
    /// 2G
    GSMService,
    /// 4G
    LTEService,
}

impl FmlNetAttachStatus {
    /// Position in the order NoSim < SimReady < NoService < InCall < GSMService < LTEService.
    pub open spec fn spec_rank(self) -> u8 {
        match self {
            FmlNetAttachStatus::NoSim => 0,
            FmlNetAttachStatus::SimReady => 1,
            FmlNetAttachStatus::NoService => 2,
            FmlNetAttachStatus::InCall => 3,
            FmlNetAttachStatus::GSMService => 4,
            FmlNetAttachStatus::LTEService => 5,
        }
    }

    /// The state stored under `value`; an unknown number reads as `NoSim`.
    pub open spec fn spec_from_u8(value: u8) -> FmlNetAttachStatus {
        match value {
            1 => FmlNetAttachStatus::SimReady,
            2 => FmlNetAttachStatus::NoService,
            3 => FmlNetAttachStatus::InCall,
            4 => FmlNetAttachStatus::GSMService,
            5 => FmlNetAttachStatus::LTEService,
            _ => FmlNetAttachStatus::NoSim,
        }
    }

    #[verifier::when_used_as_spec(spec_rank)]
    pub fn rank(self) -> (r: u8)
        ensures
            r == self.spec_rank(),
            r <= 5,
    {
        match self {
            FmlNetAttachStatus::NoSim => 0,
            FmlNetAttachStatus::SimReady => 1,
            FmlNetAttachStatus::NoService => 2,
            FmlNetAttachStatus::InCall => 3,
            FmlNetAttachStatus::GSMService => 4,
            FmlNetAttachStatus::LTEService => 5,
        }
    }
}

impl From<u8> for FmlNetAttachStatus {
    fn from(value: u8) -> (r: FmlNetAttachStatus) {
        match value {
            1 => FmlNetAttachStatus::SimReady,
            2 => FmlNetAttachStatus::NoService,
            3 => FmlNetAttachStatus::InCall,
            4 => FmlNetAttachStatus::GSMService,
            5 => FmlNetAttachStatus::LTEService,
            _ => FmlNetAttachStatus::NoSim,
        }
    }
}

impl vstd::std_specs::convert::FromSpecImpl<u8> for FmlNetAttachStatus {
    open spec fn obeys_from_spec() -> bool {
        true
    }

    open spec fn from_spec(value: u8) -> FmlNetAttachStatus {
        FmlNetAttachStatus::spec_from_u8(value)
    }
}

/// Session state towards the platform, ordered by `rank`; `NotConnect` is a
/// side-band value that ranks above the others.
#[derive(Debug, Clone, Copy, PartialEq, Eq, Structural)]
pub enum FmlNetConnStatus {
    Down,
    Connecting,
    Connected,
    Logined,
    NotConnect,
}

impl FmlNetConnStatus {
    pub open spec fn spec_rank(self) -> u8 {
        match self {
            FmlNetConnStatus::Down => 0,
            FmlNetConnStatus::Connecting => 1,
            FmlNetConnStatus::Connected => 2,
            FmlNetConnStatus::Logined => 3,
            FmlNetConnStatus::NotConnect => 4,
        }
    }

    /// The state stored under `value`; an unknown number reads as `Down`.
    pub open spec fn spec_from_u8(value: u8) -> FmlNetConnStatus {
        match value {
            1 => FmlNetConnStatus::Connecting,
            2 => FmlNetConnStatus::Connected,
            3 => FmlNetConnStatus::Logined,
            4 => FmlNetConnStatus::NotConnect,
            _ => FmlNetConnStatus::Down,
        }
    }

    #[verifier::when_used_as_spec(spec_rank)]
    pub fn rank(self) -> (r: u8)
        ensures
            r == self.spec_rank(),
            r <= 4,
    {
        match self {
            FmlNetConnStatus::Down => 0,
            FmlNetConnStatus::Connecting => 1,
            FmlNetConnStatus::Connected => 2,
            FmlNetConnStatus::Logined => 3,
            FmlNetConnStatus::NotConnect => 4,
        }
    }
}

impl From<u8> for FmlNetConnStatus {
    fn from(value: u8) -> (r: FmlNetConnStatus) {
        match value {
            1 => FmlNetConnStatus::Connecting,
            2 => FmlNetConnStatus::Connected,
            3 => FmlNetConnStatus::Logined,
            4 => FmlNetConnStatus::NotConnect,
            _ => FmlNetConnStatus::Down,
        }
    }
}

impl vstd::std_specs::convert::FromSpecImpl<u8> for FmlNetConnStatus {
    open spec fn obeys_from_spec() -> bool {
        true
    }

    open spec fn from_spec(value: u8) -> FmlNetConnStatus {
        FmlNetConnStatus::spec_from_u8(value)
    }
}

/// Motion state reported by the accelerometer: `Off` after extended stillness.
#[derive(Debug, Clone, Copy, PartialEq, Eq, Structural)]
pub enum FmlAccStatus {
    Off,
    On,
}

impl FmlAccStatus {
    pub open spec fn spec_rank(self) -> u8 {
        match self {
            FmlAccStatus::Off => 0,
            FmlAccStatus::On => 1,
        }
    }

    /// The state stored under `value`; an unknown number reads as `Off`.
    pub open spec fn spec_from_u8(value: u8) -> FmlAccStatus {
        if value == 1 {
            FmlAccStatus::On
        } else {
            FmlAccStatus::Off
        }
    }

    #[verifier::when_used_as_spec(spec_rank)]
    pub fn rank(self) -> (r: u8)
        ensures
            r == self.spec_rank(),
            r <= 1,
    {
        match self {
            FmlAccStatus::Off => 0,
            FmlAccStatus::On => 1,
        }
    }
}

impl From<u8> for FmlAccStatus {
    fn from(value: u8) -> (r: FmlAccStatus) {
        if value == 1 {
            FmlAccStatus::On
        } else {
            FmlAccStatus::Off
        }
    }
}

impl vstd::std_specs::convert::FromSpecImpl<u8> for FmlAccStatus {
    open spec fn obeys_from_spec() -> bool {
        true
    }

    open spec fn from_spec(value: u8) -> FmlAccStatus {
        FmlAccStatus::spec_from_u8(value)
    }
}

/// GNSS receiver state, ordered Off < On < Fix2D < Fix3D; `NotOpen` is a
/// side-band value that ranks above the others.
#[derive(Debug, Clone, Copy, PartialEq, Eq, Structural)]
pub enum FmlGnssStatus {
    Off,
    On,
    Fix2D,
    Fix3D,
    NotOpen,
}

impl FmlGnssStatus {
    pub open spec fn spec_rank(self) -> u8 {
        match self {
            FmlGnssStatus::Off => 0,
            FmlGnssStatus::On => 1,
            FmlGnssStatus::Fix2D => 2,
            FmlGnssStatus::Fix3D => 3,
            FmlGnssStatus::NotOpen => 4,
        }
    }

    /// The state stored under `value`; an unknown number reads as `Off`.
    pub open spec fn spec_from_u8(value: u8) -> FmlGnssStatus {
        match value {
            1 => FmlGnssStatus::On,
            2 => FmlGnssStatus::Fix2D,
            3 => FmlGnssStatus::Fix3D,
            4 => FmlGnssStatus::NotOpen,
            _ => FmlGnssStatus::Off,
        }
    }

    #[verifier::when_used_as_spec(spec_rank)]
    pub fn rank(self) -> (r: u8)
        ensures
            r == self.spec_rank(),
            r <= 4,
    {
        match self {
            FmlGnssStatus::Off => 0,
            FmlGnssStatus::On => 1,
            FmlGnssStatus::Fix2D => 2,
            FmlGnssStatus::Fix3D => 3,
            FmlGnssStatus::NotOpen => 4,
        }
    }
}

impl From<u8> for FmlGnssStatus {
    fn from(value: u8) -> (r: FmlGnssStatus) {
        match value {
            1 => FmlGnssStatus::On,
            2 => FmlGnssStatus::Fix2D,
            3 => FmlGnssStatus::Fix3D,
            4 => FmlGnssStatus::NotOpen,
            _ => FmlGnssStatus::Off,
        }
    }
}

impl vstd::std_specs::convert::FromSpecImpl<u8> for FmlGnssStatus {
    open spec fn obeys_from_spec() -> bool {
        true
    }

    open spec fn from_spec(value: u8) -> FmlGnssStatus {
        FmlGnssStatus::spec_from_u8(value)
    }
}

/// Every state survives a round trip through its stored number.
pub proof fn lemma_rank_round_trip(a: FmlNetAttachStatus, c: FmlNetConnStatus, m: FmlAccStatus, g: FmlGnssStatus)
    ensures
        FmlNetAttachStatus::spec_from_u8(a.spec_rank()) == a,
        FmlNetConnStatus::spec_from_u8(c.spec_rank()) == c,
        FmlAccStatus::spec_from_u8(m.spec_rank()) == m,
        FmlGnssStatus::spec_from_u8(g.spec_rank()) == g,
{
}

/// Temperature and humidity sampling settings.
#[derive(Debug, Clone, Copy)]
pub struct FmLTempNvm {
    /// Interval between two samples, in minutes.
    pub detect_inv: u32,
}

impl FmLTempNvm {
    pub fn default() -> (r: FmLTempNvm)
        ensures
            r.detect_inv == 5,
    {
        FmLTempNvm { detect_inv: 5 }
    }
}

/// A position solution as the receiver reports it.
#[derive(Debug, Clone, Copy, PartialEq, Eq, Structural)]
pub struct FmlGnssRawData {
    /// Millionths of a degree.
    pub latitude: i32,
    /// Millionths of a degree.
    pub longitude: i32,
    /// Hundredths.
    pub hdop: u32,
    /// Hundredths of a metre.
    pub altitude: i32,
    /// 0 for no fix, 2 for a 2D fix, 3 for a 3D fix.
    pub fix: u8,
    /// Course over ground in hundredths of a degree, where the receiver gave one.
    pub cog: Option<i32>,
    /// Speed in hundredths of a kilometre per hour.
    pub spkm: u32,
    /// Speed in hundredths of a knot.
    pub spkn: u32,
    /// Satellites in use.
    pub nsat: u8,
    /// Seconds since the epoch, UTC.
    pub utc_stamp: i64,
}

impl FmlGnssRawData {
    /// The all-zero record that stands for "no fix seen yet".
    pub fn default() -> (r: FmlGnssRawData)
        ensures
            r == (FmlGnssRawData {
                latitude: 0,
                longitude: 0,
                hdop: 0,
                altitude: 0,
                fix: 0,
                cog: None,
                spkm: 0,
                spkn: 0,
                nsat: 0,
                utc_stamp: 0,
            }),
    {
        FmlGnssRawData {
            latitude: 0,
            longitude: 0,
            hdop: 0,
            altitude: 0,
            fix: 0,
            cog: None,
            spkm: 0,
            spkn: 0,
            nsat: 0,
            utc_stamp: 0,
        }
    }
}

/// A position ready for upload, tagged with the identity it is published under.
#[derive(Debug, Clone, Copy, PartialEq, Eq, Structural)]
pub struct FmlGnssData {
    pub id: u16,
    /// Millionths of a degree.
    pub lat: i32,
    /// Millionths of a degree.
    pub lon: i32,
}

impl FmlGnssData {
    pub fn new(id: u16, lon: i32, lat: i32) -> (r: FmlGnssData)
        ensures
            r == (FmlGnssData { id, lat, lon }),
    {
        FmlGnssData { id, lat, lon }
    }
}

/// A temperature and humidity sample ready for upload.
#[derive(Debug, Clone, Copy, PartialEq, Eq, Structural)]
pub struct FmlTempHumiData {
    pub id: u16,
    /// Hundredths of a degree Celsius.
    pub temp: i32,
    /// Hundredths of a percent of relative humidity.
    pub humi: i32,
}

impl FmlTempHumiData {
    pub fn new(id: u16, temp: i32, humi: i32) -> (r: FmlTempHumiData)
        ensures
            r == (FmlTempHumiData { id, temp, humi }),
    {
        FmlTempHumiData { id, temp, humi }
    }
}

/// One telemetry item on its way to the platform.
#[derive(Debug, Clone, Copy, PartialEq, Eq, Structural)]
pub enum FmlNetSendType {
    Location(FmlGnssData),
    TempHumi(FmlTempHumiData),
}

/// Position reporting settings.
#[derive(Debug, Clone, Copy)]
pub struct FmlGnssNvm {
    pub gps_sw: bool,
    /// Seconds between two reports while moving.
    pub acc_on_itv_sec: u16,
    /// Seconds between two reports while still.
    pub acc_off_itv_sec: u16,
    pub last_gnss_data: Option<FmlGnssRawData>,
    pub cur_gnss_data: Option<FmlGnssRawData>,
}

impl FmlGnssNvm {
    pub fn default() -> (r: FmlGnssNvm)
        ensures
            r.gps_sw,
            r.acc_on_itv_sec == 60,
            r.acc_off_itv_sec == 0,
            r.last_gnss_data is None,
            r.cur_gnss_data is None,
    {
        FmlGnssNvm {
            gps_sw: true,
            acc_on_itv_sec: 60,
            acc_off_itv_sec: 0,
            last_gnss_data: None,
            cur_gnss_data: None,
        }
    }
}

/// Bytes that the server's name, the client's name, the user's name and the topic hold at most.
pub const FML_NET_NAME_MAX: usize = 50;

/// Bytes that the password holds at most.
pub const FML_NET_PASSWORD_MAX: usize = 256;

/// The session's settings.
#[derive(Debug, PartialEq, Eq)]
pub struct FmLNetNvm {
    pub mqtt_version: u8,
    pub mqtt_idx: u8,
    pub mqtt_server: (Vec<u8>, u16),
    pub mqtt_client_id: Vec<u8>,
    pub mqtt_usename: Vec<u8>,
    pub mqtt_password: Vec<u8>,
    /// The topic that telemetry is published under.
    pub dp_topic: Vec<u8>,
    pub send_type: Option<FmlNetSendType>,
}

/// The topic of a device: `$sys/<user>/<client>/dp/post/json`.
pub open spec fn spec_dp_topic(username: Seq<u8>, client_id: Seq<u8>) -> Seq<u8> {
    "$sys/".spec_bytes() + username + "/".spec_bytes() + client_id + "/dp/post/json".spec_bytes()
}

/// Whether the settings fit their fields.
pub open spec fn spec_settings_fit(
    server: Seq<u8>,
    client_id: Seq<u8>,
    username: Seq<u8>,
    password: Seq<u8>,
) -> bool {
    server.len() <= FML_NET_NAME_MAX && client_id.len() <= FML_NET_NAME_MAX && username.len()
        <= FML_NET_NAME_MAX && password.len() <= FML_NET_PASSWORD_MAX && spec_dp_topic(
        username,
        client_id,
    ).len() <= FML_NET_NAME_MAX
}

/// Writes the topic of a device.
pub fn dp_topic(username: &[u8], client_id: &[u8]) -> (r: Vec<u8>)
    ensures
        r@ == spec_dp_topic(username@, client_id@),
{
    let mut out: Vec<u8> = Vec::new();
    push_all(&mut out, "$sys/".as_bytes());
    push_all(&mut out, username);
    push_all(&mut out, "/".as_bytes());
    push_all(&mut out, client_id);
    push_all(&mut out, "/dp/post/json".as_bytes());
    proof {
        assert(out@ =~= spec_dp_topic(username@, client_id@));
    }
    out
}

impl FmLNetNvm {
    /// The settings of a session on client slot 1: `None` where a text does
    /// not fit its field, else the settings with the device's topic and nothing to send.
    pub fn new(
        server: Vec<u8>,
        port: u16,
        client_id: Vec<u8>,
        username: Vec<u8>,
        password: Vec<u8>,
    ) -> (r: Option<FmLNetNvm>)
        ensures
            r is Some == spec_settings_fit(server@, client_id@, username@, password@),
            r matches Some(n) ==> n.mqtt_version == 1 && n.mqtt_idx == 1 && n.mqtt_server.0@
                == server@ && n.mqtt_server.1 == port && n.mqtt_client_id@ == client_id@
                && n.mqtt_usename@ == username@ && n.mqtt_password@ == password@ && n.dp_topic@
                == spec_dp_topic(username@, client_id@) && n.send_type is None,
    {
        if server.len() > FML_NET_NAME_MAX || client_id.len() > FML_NET_NAME_MAX || username.len()
            > FML_NET_NAME_MAX || password.len() > FML_NET_PASSWORD_MAX {
            return None;
        }
        let topic = dp_topic(username.as_slice(), client_id.as_slice());
        if topic.len() > FML_NET_NAME_MAX {
            return None;
        }
        Some(
            FmLNetNvm {
                mqtt_version: 1,
                mqtt_idx: 1,
                mqtt_server: (server, port),
                mqtt_client_id: client_id,
                mqtt_usename: username,
                mqtt_password: password,
                dp_topic: topic,
                send_type: None,
            },
        )
    }
}

} // verus!
