//! The GNSS commands of the modem.
use crate::command::{at_num, at_plain, at_text, at_text_num, at_text_text, spec_at, ArgSpec};
use crate::general::OnOff;
use vstd::prelude::*;
use vstd::string::StringSliceAdditionalSpecFns;

verus! {

/// Which NMEA sentences the receiver puts out.
#[derive(Debug, Clone, Copy, PartialEq, Eq, Structural)]
pub enum NmeaConfig {
    Defalut,
    AllEnable,
    AllDisable,
    Config { gga: bool, rmc: bool, gsv: bool, gsa: bool, vtg: bool, gll: bool },
}

/// The port on which NMEA sentences are put out.
#[derive(Debug, Clone, Copy, PartialEq, Eq, Structural)]
pub enum Outport {
    NoPort,
    UsbNmea,
    UartDebug,
}

/// The constellations that the receiver uses.
#[derive(Debug, Clone, Copy, PartialEq, Eq, Structural)]
pub enum GnssConfig {
    Gps,
    GpsBeiDou,
    GpsGlonassGalileo,
    GpsGlonass,
    GpsBeiDouGalileo,
    GpsGalileo,
    BeiDou,
}

impl GnssConfig {
    pub open spec fn spec_code(self) -> u8 {
        match self {
            GnssConfig::Gps => 0,
            GnssConfig::GpsBeiDou => 1,
            GnssConfig::GpsGlonassGalileo => 3,
            GnssConfig::GpsGlonass => 4,
            GnssConfig::GpsBeiDouGalileo => 5,
            GnssConfig::GpsGalileo => 6,
            GnssConfig::BeiDou => 7,
        }
    }

    #[verifier::when_used_as_spec(spec_code)]
    pub fn code(self) -> (r: u8)
        ensures
            r == self.spec_code(),
    {
        match self {
            GnssConfig::Gps => 0,
            GnssConfig::GpsBeiDou => 1,
            GnssConfig::GpsGlonassGalileo => 3,
            GnssConfig::GpsGlonass => 4,
            GnssConfig::GpsBeiDouGalileo => 5,
            GnssConfig::GpsGalileo => 6,
            GnssConfig::BeiDou => 7,
        }
    }
}

/// How much of the assistance data is deleted.
#[derive(Debug, Clone, Copy, PartialEq, Eq, Structural)]
pub enum DeleteType {
    AllDel,
    NotDel,
    PartDel,
}

impl DeleteType {
    pub open spec fn spec_code(self) -> u8 {
        match self {
            DeleteType::AllDel => 0,
            DeleteType::NotDel => 1,
            DeleteType::PartDel => 2,
        }
    }

    #[verifier::when_used_as_spec(spec_code)]
    pub fn code(self) -> (r: u8)
        ensures
            r == self.spec_code(),
    {
        match self {
            DeleteType::AllDel => 0,
            DeleteType::NotDel => 1,
            DeleteType::PartDel => 2,
        }
    }
}

/// The kinds of NMEA sentence.
#[derive(Debug, Clone, Copy, PartialEq, Eq, Structural)]
pub enum NmeaType {
    GGA,
    RMC,
    GSV,
    GSA,
    VTG,
    GLL,
}

/// `AT+QGPSCFG="outport",<port>`: sets the port for NMEA sentences.
#[derive(Debug, Clone, Copy, PartialEq, Eq, Structural)]
pub struct QGpsCfgOutPortSet {
    pub out_port: Outport,
}

impl QGpsCfgOutPortSet {
    pub fn new(outport: Outport) -> (r: QGpsCfgOutPortSet)
        ensures
            r.out_port == outport,
    {
        QGpsCfgOutPortSet { out_port: outport }
    }

    pub open spec fn spec_port_name(self) -> Seq<u8> {
        match self.out_port {
            Outport::NoPort => "none".spec_bytes(),
            Outport::UsbNmea => "usbnmea".spec_bytes(),
            Outport::UartDebug => "uartdebug".spec_bytes(),
        }
    }

    pub fn as_bytes(&self) -> (r: Vec<u8>)
        ensures
            r@ == spec_at(
                "+QGPSCFG".spec_bytes(),
                seq![ArgSpec::Text("outport".spec_bytes()), ArgSpec::Text(self.spec_port_name())],
            ),
    {
        match self.out_port {
            Outport::NoPort => at_text_text("+QGPSCFG", "outport", "none"),
            Outport::UsbNmea => at_text_text("+QGPSCFG", "outport", "usbnmea"),
            Outport::UartDebug => at_text_text("+QGPSCFG", "outport", "uartdebug"),
        }
    }
}

/// `AT+QGPSCFG="nmeasrc",<n>`: lets NMEA sentences be fetched by command, or not.
#[derive(Debug, Clone, Copy, PartialEq, Eq, Structural)]
pub struct QGpsCfgNmeasrcSet {
    pub on_off: u8,
}

impl QGpsCfgNmeasrcSet {
    pub fn new(on_off: OnOff) -> (r: QGpsCfgNmeasrcSet)
        ensures
            r.on_off == on_off.spec_code(),
    {
        QGpsCfgNmeasrcSet { on_off: on_off.code() }
    }

    pub fn as_bytes(&self) -> (r: Vec<u8>)
        ensures
            r@ == spec_at(
                "+QGPSCFG".spec_bytes(),
                seq![ArgSpec::Text("nmeasrc".spec_bytes()), ArgSpec::Num(self.on_off as u32)],
            ),
    {
        at_text_num("+QGPSCFG", "nmeasrc", self.on_off as u32)
    }
}

/// `AT+QGPSCFG="gnssconfig",<n>`: picks the constellations.
#[derive(Debug, Clone, Copy, PartialEq, Eq, Structural)]
pub struct QGpsCfgGnssConfigSet {
    pub gnss_confg: u8,
}

impl QGpsCfgGnssConfigSet {
    pub fn new(cfg: GnssConfig) -> (r: QGpsCfgGnssConfigSet)
        ensures
            r.gnss_confg == cfg.spec_code(),
    {
        QGpsCfgGnssConfigSet { gnss_confg: cfg.code() }
    }

    pub fn default() -> (r: QGpsCfgGnssConfigSet)
        ensures
            r.gnss_confg == GnssConfig::GpsBeiDouGalileo.spec_code(),
    {
        QGpsCfgGnssConfigSet { gnss_confg: GnssConfig::GpsBeiDouGalileo.code() }
    }

    pub fn as_bytes(&self) -> (r: Vec<u8>)
        ensures
            r@ == spec_at(
                "+QGPSCFG".spec_bytes(),
                seq![ArgSpec::Text("gnssconfig".spec_bytes()), ArgSpec::Num(self.gnss_confg as u32)],
            ),
    {
        at_text_num("+QGPSCFG", "gnssconfig", self.gnss_confg as u32)
    }
}

/// `AT+QGPSDEL=<n>`: deletes assistance data.
#[derive(Debug, Clone, Copy, PartialEq, Eq, Structural)]
pub struct QGpsDelSet {
    pub delete_type: u8,
}

impl QGpsDelSet {
    pub fn new(del: DeleteType) -> (r: QGpsDelSet)
        ensures
            r.delete_type == del.spec_code(),
    {
        QGpsDelSet { delete_type: del.code() }
    }

    pub fn as_bytes(&self) -> (r: Vec<u8>)
        ensures
            r@ == spec_at("+QGPSDEL".spec_bytes(), seq![ArgSpec::Num(self.delete_type as u32)]),
    {
        at_num("+QGPSDEL", self.delete_type as u32)
    }
}

/// `AT+QGPS=<n>`: powers the receiver on or off.
#[derive(Debug, Clone, Copy, PartialEq, Eq, Structural)]
pub struct QGpsSet {
    pub on_off: u8,
}

impl QGpsSet {
    pub fn new(on: OnOff) -> (r: QGpsSet)
        ensures
            r.on_off == on.spec_code(),
    {
        match on {
            OnOff::On => QGpsSet { on_off: 1 },
            OnOff::Off => QGpsSet { on_off: 0 },
        }
    }

    pub fn as_bytes(&self) -> (r: Vec<u8>)
        ensures
            r@ == spec_at("+QGPS".spec_bytes(), seq![ArgSpec::Num(self.on_off as u32)]),
    {
        at_num("+QGPS", self.on_off as u32)
    }
}

/// `AT+QGPSEND`: powers the receiver off.
#[derive(Debug, Clone, Copy, PartialEq, Eq, Structural)]
pub struct QGpsEndSet;

impl QGpsEndSet {
    pub fn as_bytes(&self) -> (r: Vec<u8>)
        ensures
            r@ == spec_at("+QGPSEND".spec_bytes(), Seq::empty()),
    {
        at_plain("+QGPSEND")
    }
}

/// `AT+QGPSLOC=<mode>`: asks for the position.
#[derive(Debug, Clone, Copy, PartialEq, Eq, Structural)]
pub struct QGpsLocGet {
    pub mode: u8,
}

impl QGpsLocGet {
    pub fn default() -> (r: QGpsLocGet)
        ensures
            r.mode == 0,
    {
        QGpsLocGet { mode: 0 }
    }

    pub fn as_bytes(&self) -> (r: Vec<u8>)
        ensures
            r@ == spec_at("+QGPSLOC".spec_bytes(), seq![ArgSpec::Num(self.mode as u32)]),
    {
        at_num("+QGPSLOC", self.mode as u32)
    }
}

/// `AT+QGPSGNMEA="<kind>"`: asks for the latest sentence of one kind.
#[derive(Debug, Clone, Copy, PartialEq, Eq, Structural)]
pub struct QGpsNmeaGet {
    pub nmea_type: NmeaType,
}

impl QGpsNmeaGet {
    pub fn new(nmea_type: NmeaType) -> (r: QGpsNmeaGet)
        ensures
            r.nmea_type == nmea_type,
    {
        QGpsNmeaGet { nmea_type }
    }

    pub open spec fn spec_kind_name(self) -> Seq<u8> {
        match self.nmea_type {
            NmeaType::GGA => "GGA".spec_bytes(),
            NmeaType::RMC => "RMC".spec_bytes(),
            NmeaType::GSV => "GSV".spec_bytes(),
            NmeaType::GSA => "GSA".spec_bytes(),
            NmeaType::VTG => "VTG".spec_bytes(),
            NmeaType::GLL => "GLL".spec_bytes(),
        }
    }

    pub fn as_bytes(&self) -> (r: Vec<u8>)
        ensures
            r@ == spec_at("+QGPSGNMEA".spec_bytes(), seq![ArgSpec::Text(self.spec_kind_name())]),
    {
        match self.nmea_type {
            NmeaType::GGA => at_text("+QGPSGNMEA", "GGA"),
            NmeaType::RMC => at_text("+QGPSGNMEA", "RMC"),
            NmeaType::GSV => at_text("+QGPSGNMEA", "GSV"),
            NmeaType::GSA => at_text("+QGPSGNMEA", "GSA"),
            NmeaType::VTG => at_text("+QGPSGNMEA", "VTG"),
            NmeaType::GLL => at_text("+QGPSGNMEA", "GLL"),
        }
    }
}

/// `AT+QAGPS=<n>`: switches assisted GNSS on or off.
#[derive(Debug, Clone, Copy, PartialEq, Eq, Structural)]
pub struct QAgpsSet {
    pub on_off: u8,
}

impl QAgpsSet {
    pub fn new(on_off: OnOff) -> (r: QAgpsSet)
        ensures
            r.on_off == on_off.spec_code(),
    {
        QAgpsSet { on_off: on_off.code() }
    }

    pub fn as_bytes(&self) -> (r: Vec<u8>)
        ensures
            r@ == spec_at("+QAGPS".spec_bytes(), seq![ArgSpec::Num(self.on_off as u32)]),
    {
        at_num("+QAGPS", self.on_off as u32)
    }
}

} // verus!
