//! The settings of the modem's MQTT stack and the numbers that stand for them on the line.
use vstd::prelude::*;

verus! {

/// The client slots of the modem's MQTT stack.
#[derive(Debug, Clone, Copy, PartialEq, Eq, Structural)]
pub enum MqttClientIdx {
    IDX0,
    IDX1,
    IDX2,
    IDX3,
    IDX4,
    IDX5,
}

impl MqttClientIdx {
    pub open spec fn spec_code(self) -> u8 {
        match self {
            MqttClientIdx::IDX0 => 0,
            MqttClientIdx::IDX1 => 1,
            MqttClientIdx::IDX2 => 2,
            MqttClientIdx::IDX3 => 3,
            MqttClientIdx::IDX4 => 4,
            MqttClientIdx::IDX5 => 5,
        }
    }

    /// The number that stands for the setting on the line.
    #[verifier::when_used_as_spec(spec_code)]
    pub fn code(self) -> (r: u8)
        ensures
            r == self.spec_code(),
    {
        match self {
            MqttClientIdx::IDX0 => 0,
            MqttClientIdx::IDX1 => 1,
            MqttClientIdx::IDX2 => 2,
            MqttClientIdx::IDX3 => 3,
            MqttClientIdx::IDX4 => 4,
            MqttClientIdx::IDX5 => 5,
        }
    }
}

/// The protocol versions.
#[allow(non_camel_case_types)]
#[derive(Debug, Clone, Copy, PartialEq, Eq, Structural)]
pub enum MqttVersion {
    V3_1,
    V3_1_1,
}

impl MqttVersion {
    pub open spec fn spec_code(self) -> u8 {
        match self {
            MqttVersion::V3_1 => 3,
            MqttVersion::V3_1_1 => 4,
        }
    }

    /// The number that stands for the setting on the line.
    #[verifier::when_used_as_spec(spec_code)]
    pub fn code(self) -> (r: u8)
        ensures
            r == self.spec_code(),
    {
        match self {
            MqttVersion::V3_1 => 3,
            MqttVersion::V3_1_1 => 4,
        }
    }
}

/// The packet data contexts that a client can use.
#[derive(Debug, Clone, Copy, PartialEq, Eq, Structural)]
pub enum MqttPdPCid {
    I1,
    I2,
    I3,
    I4,
    I5,
    I6,
    I7,
    I8,
    I9,
    I10,
    I11,
    I12,
    I13,
    I14,
    I15,
}

impl MqttPdPCid {
    pub open spec fn spec_code(self) -> u8 {
        match self {
            MqttPdPCid::I1 => 1,
            MqttPdPCid::I2 => 2,
            MqttPdPCid::I3 => 3,
            MqttPdPCid::I4 => 4,
            MqttPdPCid::I5 => 5,
            MqttPdPCid::I6 => 6,
            MqttPdPCid::I7 => 7,
            MqttPdPCid::I8 => 8,
            MqttPdPCid::I9 => 9,
            MqttPdPCid::I10 => 10,
            MqttPdPCid::I11 => 11,
            MqttPdPCid::I12 => 12,
            MqttPdPCid::I13 => 13,
            MqttPdPCid::I14 => 14,
            MqttPdPCid::I15 => 15,
        }
    }

    /// The number that stands for the setting on the line.
    #[verifier::when_used_as_spec(spec_code)]
    pub fn code(self) -> (r: u8)
        ensures
            r == self.spec_code(),
    {
        match self {
            MqttPdPCid::I1 => 1,
            MqttPdPCid::I2 => 2,
            MqttPdPCid::I3 => 3,
            MqttPdPCid::I4 => 4,
            MqttPdPCid::I5 => 5,
            MqttPdPCid::I6 => 6,
            MqttPdPCid::I7 => 7,
            MqttPdPCid::I8 => 8,
            MqttPdPCid::I9 => 9,
            MqttPdPCid::I10 => 10,
            MqttPdPCid::I11 => 11,
            MqttPdPCid::I12 => 12,
            MqttPdPCid::I13 => 13,
            MqttPdPCid::I14 => 14,
            MqttPdPCid::I15 => 15,
        }
    }
}

/// Whether a client's connection is plain or encrypted.
#[derive(Debug, Clone, Copy, PartialEq, Eq, Structural)]
pub enum MqttSslMode {
    NormalTcp,
    SslTcp,
}

impl MqttSslMode {
    pub open spec fn spec_code(self) -> u8 {
        match self {
            MqttSslMode::NormalTcp => 0,
            MqttSslMode::SslTcp => 1,
        }
    }

    /// The number that stands for the setting on the line.
    #[verifier::when_used_as_spec(spec_code)]
    pub fn code(self) -> (r: u8)
        ensures
            r == self.spec_code(),
    {
        match self {
            MqttSslMode::NormalTcp => 0,
            MqttSslMode::SslTcp => 1,
        }
    }
}

/// The encryption contexts.
#[derive(Debug, Clone, Copy, PartialEq, Eq, Structural)]
pub enum MqttSslCtxIdx {
    I0,
    I1,
    I2,
    I3,
    I4,
    I5,
}

impl MqttSslCtxIdx {
    pub open spec fn spec_code(self) -> u8 {
        match self {
            MqttSslCtxIdx::I0 => 0,
            MqttSslCtxIdx::I1 => 1,
            MqttSslCtxIdx::I2 => 2,
            MqttSslCtxIdx::I3 => 3,
            MqttSslCtxIdx::I4 => 4,
            MqttSslCtxIdx::I5 => 5,
        }
    }

    /// The number that stands for the setting on the line.
    #[verifier::when_used_as_spec(spec_code)]
    pub fn code(self) -> (r: u8)
        ensures
            r == self.spec_code(),
    {
        match self {
            MqttSslCtxIdx::I0 => 0,
            MqttSslCtxIdx::I1 => 1,
            MqttSslCtxIdx::I2 => 2,
            MqttSslCtxIdx::I3 => 3,
            MqttSslCtxIdx::I4 => 4,
            MqttSslCtxIdx::I5 => 5,
        }
    }
}

/// Whether the broker forgets the session on disconnect.
#[derive(Debug, Clone, Copy, PartialEq, Eq, Structural)]
pub enum MqttCleanSession {
    Off,
    On,
}

impl MqttCleanSession {
    pub open spec fn spec_code(self) -> u8 {
        match self {
            MqttCleanSession::Off => 0,
            MqttCleanSession::On => 1,
        }
    }

    /// The number that stands for the setting on the line.
    #[verifier::when_used_as_spec(spec_code)]
    pub fn code(self) -> (r: u8)
        ensures
            r == self.spec_code(),
    {
        match self {
            MqttCleanSession::Off => 0,
            MqttCleanSession::On => 1,
        }
    }
}

/// Whether a timed-out delivery is reported.
#[derive(Debug, Clone, Copy, PartialEq, Eq, Structural)]
pub enum MqttTimeOutNotice {
    Off,
    On,
}

impl MqttTimeOutNotice {
    pub open spec fn spec_code(self) -> u8 {
        match self {
            MqttTimeOutNotice::Off => 0,
            MqttTimeOutNotice::On => 1,
        }
    }

    /// The number that stands for the setting on the line.
    #[verifier::when_used_as_spec(spec_code)]
    pub fn code(self) -> (r: u8)
        ensures
            r == self.spec_code(),
    {
        match self {
            MqttTimeOutNotice::Off => 0,
            MqttTimeOutNotice::On => 1,
        }
    }
}

/// Whether a will message is set.
#[derive(Debug, Clone, Copy, PartialEq, Eq, Structural)]
pub enum MqttWillFlag {
    Off,
    On,
}

impl MqttWillFlag {
    pub open spec fn spec_code(self) -> u8 {
        match self {
            MqttWillFlag::Off => 0,
            MqttWillFlag::On => 1,
        }
    }

    /// The number that stands for the setting on the line.
    #[verifier::when_used_as_spec(spec_code)]
    pub fn code(self) -> (r: u8)
        ensures
            r == self.spec_code(),
    {
        match self {
            MqttWillFlag::Off => 0,
            MqttWillFlag::On => 1,
        }
    }
}

/// The levels of delivery assurance.
#[derive(Debug, Clone, Copy, PartialEq, Eq, Structural)]
pub enum MqttQos {
    Qos0,
    Qos1,
    Qos2,
}

impl MqttQos {
    pub open spec fn spec_code(self) -> u8 {
        match self {
            MqttQos::Qos0 => 0,
            MqttQos::Qos1 => 1,
            MqttQos::Qos2 => 2,
        }
    }

    /// The number that stands for the setting on the line.
    #[verifier::when_used_as_spec(spec_code)]
    pub fn code(self) -> (r: u8)
        ensures
            r == self.spec_code(),
    {
        match self {
            MqttQos::Qos0 => 0,
            MqttQos::Qos1 => 1,
            MqttQos::Qos2 => 2,
        }
    }
}

/// Whether the broker retains the will message.
#[derive(Debug, Clone, Copy, PartialEq, Eq, Structural)]
pub enum MqttWillRetain {
    Off,
    On,
}

impl MqttWillRetain {
    pub open spec fn spec_code(self) -> u8 {
        match self {
            MqttWillRetain::Off => 0,
            MqttWillRetain::On => 1,
        }
    }

    /// The number that stands for the setting on the line.
    #[verifier::when_used_as_spec(spec_code)]
    pub fn code(self) -> (r: u8)
        ensures
            r == self.spec_code(),
    {
        match self {
            MqttWillRetain::Off => 0,
            MqttWillRetain::On => 1,
        }
    }
}

/// Whether received messages are reported as notifications.
#[derive(Debug, Clone, Copy, PartialEq, Eq, Structural)]
pub enum MqttRecvMode {
    UrcOff,
    UrcOn,
}

impl MqttRecvMode {
    pub open spec fn spec_code(self) -> u8 {
        match self {
            MqttRecvMode::UrcOff => 0,
            MqttRecvMode::UrcOn => 1,
        }
    }

    /// The number that stands for the setting on the line.
    #[verifier::when_used_as_spec(spec_code)]
    pub fn code(self) -> (r: u8)
        ensures
            r == self.spec_code(),
    {
        match self {
            MqttRecvMode::UrcOff => 0,
            MqttRecvMode::UrcOn => 1,
        }
    }
}

/// Whether the length of a received message is reported.
#[derive(Debug, Clone, Copy, PartialEq, Eq, Structural)]
pub enum MqttRecvLen {
    Off,
    On,
}

impl MqttRecvLen {
    pub open spec fn spec_code(self) -> u8 {
        match self {
            MqttRecvLen::Off => 0,
            MqttRecvLen::On => 1,
        }
    }

    /// The number that stands for the setting on the line.
    #[verifier::when_used_as_spec(spec_code)]
    pub fn code(self) -> (r: u8)
        ensures
            r == self.spec_code(),
    {
        match self {
            MqttRecvLen::Off => 0,
            MqttRecvLen::On => 1,
        }
    }
}

/// How payloads are written on the line.
#[derive(Debug, Clone, Copy, PartialEq, Eq, Structural)]
pub enum MqttSendMode {
    Str,
    Hex,
}

impl MqttSendMode {
    pub open spec fn spec_code(self) -> u8 {
        match self {
            MqttSendMode::Str => 0,
            MqttSendMode::Hex => 1,
        }
    }

    /// The number that stands for the setting on the line.
    #[verifier::when_used_as_spec(spec_code)]
    pub fn code(self) -> (r: u8)
        ensures
            r == self.spec_code(),
    {
        match self {
            MqttSendMode::Str => 0,
            MqttSendMode::Hex => 1,
        }
    }
}

/// Whether input is echoed while a payload is entered.
#[derive(Debug, Clone, Copy, PartialEq, Eq, Structural)]
pub enum MqttViewMode {
    EchoOff,
    EchoOn,
}

impl MqttViewMode {
    pub open spec fn spec_code(self) -> u8 {
        match self {
            MqttViewMode::EchoOff => 0,
            MqttViewMode::EchoOn => 1,
        }
    }

    /// The number that stands for the setting on the line.
    #[verifier::when_used_as_spec(spec_code)]
    pub fn code(self) -> (r: u8)
        ensures
            r == self.spec_code(),
    {
        match self {
            MqttViewMode::EchoOff => 0,
            MqttViewMode::EchoOn => 1,
        }
    }
}

/// Whether entering a payload may time out.
#[derive(Debug, Clone, Copy, PartialEq, Eq, Structural)]
pub enum MqttEditMode {
    TimeoutOff,
    TimeoutOn,
}

impl MqttEditMode {
    pub open spec fn spec_code(self) -> u8 {
        match self {
            MqttEditMode::TimeoutOff => 0,
            MqttEditMode::TimeoutOn => 1,
        }
    }

    /// The number that stands for the setting on the line.
    #[verifier::when_used_as_spec(spec_code)]
    pub fn code(self) -> (r: u8)
        ensures
            r == self.spec_code(),
    {
        match self {
            MqttEditMode::TimeoutOff => 0,
            MqttEditMode::TimeoutOn => 1,
        }
    }
}

} // verus!
