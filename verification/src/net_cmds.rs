//! The network and session commands of the modem and the responses to them.
use crate::command::{at_num, at_plain, at_text, spec_at, ArgSpec};
use crate::general::reads;
use vstd::prelude::*;
use vstd::string::StringSliceAdditionalSpecFns;

verus! {

/// The response to an operator query.
#[derive(Debug, Clone, Copy, PartialEq, Eq, Structural)]
pub struct CposResp {
    pub ber: u8,
    pub err: u8,
}

/// `AT+COPS?`: asks for the operator.
#[derive(Debug, Clone, Copy, PartialEq, Eq, Structural)]
pub struct CopsQuery;

impl CopsQuery {
    pub fn as_bytes(&self) -> (r: Vec<u8>)
        ensures
            r@ == spec_at("+COPS?".spec_bytes(), Seq::empty()),
    {
        at_plain("+COPS?")
    }
}

/// The response to a registration query.
#[derive(Debug, Clone, Copy, PartialEq, Eq)]
pub struct CregResp {
    pub n: u8,
    pub stat: u8,
    pub lac: Option<u16>,
    pub ci: Option<u32>,
    pub act: Option<u8>,
}

impl CregResp {
    /// Whether the device is registered, at home or roaming.
    pub fn is_attached(&self) -> (r: bool)
        ensures
            r == (self.stat == 1 || self.stat == 5),
    {
        self.stat == 1 || self.stat == 5
    }
}

/// `AT+CREG?`: asks for the registration status.
#[derive(Debug, Clone, Copy, PartialEq, Eq, Structural)]
pub struct CregQuery;

impl CregQuery {
    pub fn as_bytes(&self) -> (r: Vec<u8>)
        ensures
            r@ == spec_at("+CREG?".spec_bytes(), Seq::empty()),
    {
        at_plain("+CREG?")
    }
}

/// `AT+CREG=<n>`: picks how registration changes are reported.
#[derive(Debug, Clone, Copy, PartialEq, Eq, Structural)]
pub struct CregSet {
    pub n: u8,
}

impl CregSet {
    pub fn as_bytes(&self) -> (r: Vec<u8>)
        ensures
            r@ == spec_at("+CREG".spec_bytes(), seq![ArgSpec::Num(self.n as u32)]),
    {
        at_num("+CREG", self.n as u32)
    }
}

/// `AT+CMGF=<mode>`: picks the format of short messages.
#[derive(Debug, Clone, Copy, PartialEq, Eq, Structural)]
pub struct CmgfSet {
    pub mode: u8,
}

impl CmgfSet {
    pub fn default() -> (r: CmgfSet)
        ensures
            r.mode == 1,
    {
        CmgfSet { mode: 1 }
    }

    pub fn as_bytes(&self) -> (r: Vec<u8>)
        ensures
            r@ == spec_at("+CMGF".spec_bytes(), seq![ArgSpec::Num(self.mode as u32)]),
    {
        at_num("+CMGF", self.mode as u32)
    }
}

/// `AT+CMGS="<number>"`: starts a short message to a number.
#[derive(Debug, Clone, Copy, PartialEq, Eq)]
pub struct CmgsSet<'a> {
    pub da: &'a str,
}

impl<'a> CmgsSet<'a> {
    pub fn as_bytes(&self) -> (r: Vec<u8>)
        ensures
            r@ == spec_at("+CMGS".spec_bytes(), seq![ArgSpec::Text(self.da.spec_bytes())]),
    {
        at_text("+CMGS", self.da)
    }
}

/// The response to a SIM query: the state of the SIM as the modem words it.
#[derive(Debug, PartialEq, Eq)]
pub struct CpinResp {
    pub code: Vec<u8>,
}

impl CpinResp {
    /// Whether the SIM is ready: its state reads `READY`.
    pub fn is_ready(&self) -> (r: bool)
        ensures
            r == (self.code@ == "READY".spec_bytes()),
    {
        reads(self.code.as_slice(), "READY")
    }
}

/// `AT+CPIN?`: asks for the state of the SIM.
#[derive(Debug, Clone, Copy, PartialEq, Eq, Structural)]
pub struct CpinQuery;

impl CpinQuery {
    pub fn as_bytes(&self) -> (r: Vec<u8>)
        ensures
            r@ == spec_at("+CPIN?".spec_bytes(), Seq::empty()),
    {
        at_plain("+CPIN?")
    }
}

/// `AT+QLTS=<mode>`: asks for the network time.
#[derive(Debug, Clone, Copy, PartialEq, Eq, Structural)]
pub struct QLts {
    pub mode: u8,
}

impl QLts {
    pub fn default() -> (r: QLts)
        ensures
            r.mode == 1,
    {
        QLts { mode: 1 }
    }

    pub fn as_bytes(&self) -> (r: Vec<u8>)
        ensures
            r@ == spec_at("+QLTS".spec_bytes(), seq![ArgSpec::Num(self.mode as u32)]),
    {
        at_num("+QLTS", self.mode as u32)
    }
}

/// The response to a time query: seconds since the epoch, UTC.
#[derive(Debug, Clone, Copy, PartialEq, Eq, Structural)]
pub struct QLtsResp {
    pub utc_stamp: i64,
}

} // verus!
