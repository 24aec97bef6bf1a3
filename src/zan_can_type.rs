use crate::address::ADDRESS_BIT_LENGTH;
use vstd::prelude::*;

verus! {

/// Largest standard (11-bit) identifier.
pub const STANDARD_ID_MAX: u16 = 0x7FF;

/// Largest extended (29-bit) identifier.
pub const EXTENDED_ID_MAX: u32 = 0x1FFF_FFFF;

/// A CAN identifier as plain values: standard (11 bits) or extended (29 bits).
#[derive(Clone, Copy, Debug, PartialEq, Eq, Structural)]
pub enum CanId {
    Standard(u16),
    Extended(u32),
}

impl CanId {
    /// The raw value lies in the range of its format.
    pub open spec fn wf(self) -> bool {
        match self {
            CanId::Standard(raw) => raw <= STANDARD_ID_MAX,
            CanId::Extended(raw) => raw <= EXTENDED_ID_MAX,
        }
    }

    /// The 11-bit base identifier: the standard identifier itself, or the
    /// top eleven bits of an extended one.
    pub open spec fn base_spec(self) -> u16 {
        match self {
            CanId::Standard(raw) => raw,
            CanId::Extended(raw) => (raw >> 18u32) as u16,
        }
    }
}

/// Relies on embedded_can::StandardId::new, which accepts exactly the raw
/// values up to 0x7FF, and StandardId::as_raw, which gives the value back.
#[verifier::external_body]
fn checked_standard_id(raw: u16) -> (r: Option<u16>)
    ensures
        r == (if raw <= STANDARD_ID_MAX { Some(raw) } else { None::<u16> }),
{
    embedded_can::StandardId::new(raw).map(|id| id.as_raw())
}

/// Relies on embedded_can::ExtendedId::new, which accepts exactly the raw
/// values up to 0x1FFF_FFFF, and ExtendedId::standard_id, whose raw value is
/// the extended identifier shifted right by 18 bits.
#[verifier::external_body]
fn extended_base_id(raw: u32) -> (r: Option<u16>)
    ensures
        r == (if raw <= EXTENDED_ID_MAX { Some((raw >> 18u32) as u16) } else { None::<u16> }),
{
    embedded_can::ExtendedId::new(raw).map(|id| id.standard_id().as_raw())
}

/// Builds a standard identifier from a raw value, if it fits in 11 bits.
pub fn standard_id(raw: u16) -> (r: Option<CanId>)
    ensures
        r == (if raw <= STANDARD_ID_MAX { Some(CanId::Standard(raw)) } else { None::<CanId> }),
{
    match checked_standard_id(raw) {
        Some(v) => Some(CanId::Standard(v)),
        None => None,
    }
}

/// The 11-bit base identifier of a well-formed identifier.
pub fn base_id(id: CanId) -> (r: u16)
    requires
        id.wf(),
    ensures
        r == id.base_spec(),
        r <= STANDARD_ID_MAX,
{
    match id {
        CanId::Standard(raw) => raw,
        CanId::Extended(raw) => {
            assert(raw <= 0x1FFF_FFFF ==> (raw >> 18u32) <= 0x7FF) by (bit_vector);
            match extended_base_id(raw) {
                Some(b) => b,
                None => 0,
            }
        },
    }
}

/// The catalog of frame types; codes outside the catalog read as `Unknown`.
#[derive(Clone, Copy, Debug, PartialEq, Eq, Structural)]
pub enum ZanCanFrameType {
    Emergency,
    Error,
    SentData,
    RequestData,
    SetData,
    Unknown,
}

impl ZanCanFrameType {
    /// The type code carried in the high bits of the identifier.
    pub open spec fn code_spec(self) -> u8 {
        match self {
            ZanCanFrameType::Emergency => 0,
            ZanCanFrameType::Error => 1,
            ZanCanFrameType::SentData => 2,
            ZanCanFrameType::RequestData => 3,
            ZanCanFrameType::SetData => 4,
            ZanCanFrameType::Unknown => 7,
        }
    }

    /// The frame type a code stands for.
    pub open spec fn from_code_spec(code: u8) -> ZanCanFrameType {
        if code == 0 {
            ZanCanFrameType::Emergency
        } else if code == 1 {
            ZanCanFrameType::Error
        } else if code == 2 {
            ZanCanFrameType::SentData
        } else if code == 3 {
            ZanCanFrameType::RequestData
        } else if code == 4 {
            ZanCanFrameType::SetData
        } else {
            ZanCanFrameType::Unknown
        }
    }

    /// The frame type that an identifier's type field names.
    pub open spec fn of_id(id: CanId) -> ZanCanFrameType {
        Self::from_code_spec((id.base_spec() >> ADDRESS_BIT_LENGTH) as u8)
    }

    pub fn to_u8(self) -> (r: u8)
        ensures
            r == self.code_spec(),
            r < 8,
    {
        match self {
            ZanCanFrameType::Emergency => 0,
            ZanCanFrameType::Error => 1,
            ZanCanFrameType::SentData => 2,
            ZanCanFrameType::RequestData => 3,
            ZanCanFrameType::SetData => 4,
            ZanCanFrameType::Unknown => 7,
        }
    }

    pub fn from_u8(code: u8) -> (r: ZanCanFrameType)
        ensures
            r == Self::from_code_spec(code),
    {
        if code == 0 {
            ZanCanFrameType::Emergency
        } else if code == 1 {
            ZanCanFrameType::Error
        } else if code == 2 {
            ZanCanFrameType::SentData
        } else if code == 3 {
            ZanCanFrameType::RequestData
        } else if code == 4 {
            ZanCanFrameType::SetData
        } else {
            ZanCanFrameType::Unknown
        }
    }

    /// Classifies an identifier by the type field of its base identifier.
    pub fn from_id(id: CanId) -> (r: ZanCanFrameType)
        requires
            id.wf(),
        ensures
            r == Self::of_id(id),
    {
        let base = base_id(id);
        Self::from_u8((base >> ADDRESS_BIT_LENGTH) as u8)
    }
}

} // verus!
