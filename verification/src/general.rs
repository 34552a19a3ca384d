//! General commands of the modem and the responses to them.
use crate::command::{
    at_plain, at_text_text, command, spec_at, spec_command, spec_views, Arg, ArgSpec,
};
use crate::text::{has_at, spec_has_at};
use vstd::prelude::*;
use vstd::string::StringSliceAdditionalSpecFns;

verus! {

/// A switch.
#[derive(Debug, Clone, Copy, PartialEq, Eq, Structural)]
pub enum OnOff {
    Off,
    On,
}

impl OnOff {
    pub open spec fn spec_code(self) -> u8 {
        match self {
            OnOff::Off => 0,
            OnOff::On => 1,
        }
    }

    /// The number that stands for the switch on the line.
    #[verifier::when_used_as_spec(spec_code)]
    pub fn code(self) -> (r: u8)
        ensures
            r == self.spec_code(),
    {
        match self {
            OnOff::Off => 0,
            OnOff::On => 1,
        }
    }
}

/// A command that the modem answers with nothing but its result code.
#[derive(Debug, Clone, Copy, PartialEq, Eq, Structural)]
pub struct NoResp;

/// Whether `text` reads exactly `word`.
pub fn reads(text: &[u8], word: &str) -> (r: bool)
    ensures
        r == (text@ == word.spec_bytes()),
{
    let w = word.as_bytes();
    let r = text.len() == w.len() && has_at(text, 0, w);
    proof {
        assert(text@.subrange(0, text@.len() as int) =~= text@);
    }
    r
}

/// The response that is nothing but a result code.
#[derive(Debug, PartialEq, Eq)]
pub struct OkResp {
    pub ok: Vec<u8>,
}

impl OkResp {
    /// Whether the code reads `OK`.
    pub fn is_ok(&self) -> (r: bool)
        ensures
            r == (self.ok@ == "OK".spec_bytes()),
    {
        reads(self.ok.as_slice(), "OK")
    }
}

/// The response that reports a switch.
#[derive(Debug, PartialEq, Eq)]
pub struct OnOffResp {
    pub on_off: Vec<u8>,
}

impl OnOffResp {
    /// Whether the switch reads `ON`.
    pub fn is_on(&self) -> (r: bool)
        ensures
            r == (self.on_off@ == "ON".spec_bytes()),
    {
        reads(self.on_off.as_slice(), "ON")
    }

    /// Whether the switch reads `OFF`.
    pub fn is_off(&self) -> (r: bool)
        ensures
            r == (self.on_off@ == "OFF".spec_bytes()),
    {
        reads(self.on_off.as_slice(), "OFF")
    }
}

/// The prompt with which the modem asks for a payload.
#[derive(Debug, PartialEq, Eq)]
pub struct SendResp {
    pub send_ready: Vec<u8>,
}

impl SendResp {
    /// Whether the prompt reads `>`.
    pub fn is_send_ready(&self) -> (r: bool)
        ensures
            r == (self.send_ready@ == ">".spec_bytes()),
    {
        reads(self.send_ready.as_slice(), ">")
    }

    /// Any answer to a command that asks for a payload stands for the prompt.
    pub fn parse(data: &[u8]) -> (r: SendResp)
        ensures
            r.send_ready@ == ">".spec_bytes(),
    {
        SendResp { send_ready: vstd::slice::slice_to_vec(">".as_bytes()) }
    }
}

/// `AT`: checks that the line to the modem works.
#[derive(Debug, Clone, Copy, PartialEq, Eq, Structural)]
pub struct VerifyAT;

impl VerifyAT {
    pub fn as_bytes(&self) -> (r: Vec<u8>)
        ensures
            r@ == spec_command(false, "AT".spec_bytes(), true, Seq::empty()),
    {
        let args: Vec<Arg> = Vec::new();
        proof {
            assert(spec_views(args@) =~= Seq::<ArgSpec>::empty());
        }
        command(false, "AT", true, &args)
    }
}

/// `AT+ATE=?`: asks whether the echo is on.
#[derive(Debug, Clone, Copy, PartialEq, Eq, Structural)]
pub struct AteGet;

impl AteGet {
    pub fn as_bytes(&self) -> (r: Vec<u8>)
        ensures
            r@ == spec_at("+ATE=?".spec_bytes(), Seq::empty()),
    {
        at_plain("+ATE=?")
    }
}

/// `ATE<n>`: switches the echo on or off.
#[derive(Debug, Clone, Copy, PartialEq, Eq, Structural)]
pub struct AteSet {
    pub on_off: u8,
}

impl AteSet {
    pub fn new(on_off: OnOff) -> (r: AteSet)
        ensures
            r.on_off == on_off.spec_code(),
    {
        AteSet { on_off: on_off.code() }
    }

    pub fn as_bytes(&self) -> (r: Vec<u8>)
        ensures
            r@ == spec_command(
                false,
                "ATE".spec_bytes(),
                false,
                seq![ArgSpec::Num(self.on_off as u32)],
            ),
    {
        let mut args: Vec<Arg> = Vec::new();
        args.push(Arg::Num(self.on_off as u32));
        proof {
            assert(spec_views(args@) =~= seq![ArgSpec::Num(self.on_off as u32)]);
        }
        command(false, "ATE", false, &args)
    }
}

/// `AT&W0`: stores the current settings in the user profile.
#[derive(Debug, Clone, Copy, PartialEq, Eq, Structural)]
pub struct AtW;

impl AtW {
    pub fn as_bytes(&self) -> (r: Vec<u8>)
        ensures
            r@ == spec_command(false, "AT&W0".spec_bytes(), false, Seq::empty()),
    {
        let args: Vec<Arg> = Vec::new();
        proof {
            assert(spec_views(args@) =~= Seq::<ArgSpec>::empty());
        }
        command(false, "AT&W0", false, &args)
    }
}

/// `AT+QURCCFG="urcport","uart1"`: sends notifications to the main serial port.
#[derive(Debug, Clone, Copy, PartialEq, Eq, Structural)]
pub struct QUrcCfgPort;

impl QUrcCfgPort {
    pub fn new() -> (r: QUrcCfgPort) {
        QUrcCfgPort
    }

    pub fn as_bytes(&self) -> (r: Vec<u8>)
        ensures
            r@ == spec_at(
                "+QURCCFG".spec_bytes(),
                seq![ArgSpec::Text("urcport".spec_bytes()), ArgSpec::Text("uart1".spec_bytes())],
            ),
    {
        at_text_text("+QURCCFG", "urcport", "uart1")
    }
}

/// The modem's own error codes.
#[allow(non_camel_case_types)]
#[derive(Debug, Clone, Copy, PartialEq, Eq, Structural)]
pub enum Ec800mErrorCode {
    Invalid,
    OperationNotSupported,
    Gnss_SubsystemBusy,
    SessionIsOngoing,
    SessionNotActive,
    OperationTimeout,
    FunctionNotEnabled,
    TimeInformationError,
    ValidityTimeOutOfRange,
    InternalResourceError,
    GnssLocked,
    EndByModem,
    NotFixedNow,
    CMUXPortNotPpened,
    UnknownError,
}

impl Ec800mErrorCode {
    pub open spec fn spec_code(self) -> u16 {
        match self {
            Ec800mErrorCode::Invalid => 501,
            Ec800mErrorCode::OperationNotSupported => 502,
            Ec800mErrorCode::Gnss_SubsystemBusy => 503,
            Ec800mErrorCode::SessionIsOngoing => 504,
            Ec800mErrorCode::SessionNotActive => 505,
            Ec800mErrorCode::OperationTimeout => 506,
            Ec800mErrorCode::FunctionNotEnabled => 507,
            Ec800mErrorCode::TimeInformationError => 508,
            Ec800mErrorCode::ValidityTimeOutOfRange => 512,
            Ec800mErrorCode::InternalResourceError => 513,
            Ec800mErrorCode::GnssLocked => 514,
            Ec800mErrorCode::EndByModem => 515,
            Ec800mErrorCode::NotFixedNow => 516,
            Ec800mErrorCode::CMUXPortNotPpened => 517,
            Ec800mErrorCode::UnknownError => 549,
        }
    }

    /// The number under which the modem reports the error.
    #[verifier::when_used_as_spec(spec_code)]
    pub fn code(self) -> (r: u16)
        ensures
            r == self.spec_code(),
    {
        match self {
            Ec800mErrorCode::Invalid => 501,
            Ec800mErrorCode::OperationNotSupported => 502,
            Ec800mErrorCode::Gnss_SubsystemBusy => 503,
            Ec800mErrorCode::SessionIsOngoing => 504,
            Ec800mErrorCode::SessionNotActive => 505,
            Ec800mErrorCode::OperationTimeout => 506,
            Ec800mErrorCode::FunctionNotEnabled => 507,
            Ec800mErrorCode::TimeInformationError => 508,
            Ec800mErrorCode::ValidityTimeOutOfRange => 512,
            Ec800mErrorCode::InternalResourceError => 513,
            Ec800mErrorCode::GnssLocked => 514,
            Ec800mErrorCode::EndByModem => 515,
            Ec800mErrorCode::NotFixedNow => 516,
            Ec800mErrorCode::CMUXPortNotPpened => 517,
            Ec800mErrorCode::UnknownError => 549,
        }
    }
}

} // verus!
