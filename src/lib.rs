pub mod address;
pub mod emegency;
pub mod error;
pub mod laws;
pub mod message_data;
pub mod zan_can_type;

use address::{ZanCanAddress, ADDRESS_BIT_LENGTH};
use emegency::{EmegencyStatus, EmergencyReason, REASON_MAX};
use error::ErrorCode;
use message_data::{be16, from_be16, DataIdentifier, DataMessage};
use vstd::prelude::*;
use vstd::slice::slice_subrange;
use zan_can_type::{standard_id, CanId, ZanCanFrameType};

verus! {

/// Number of data bytes a frame can carry.
pub const FRAME_DATA_LEN: usize = 8;

/// Why a frame could not be decoded.
#[derive(Clone, Copy, Debug, PartialEq, Eq, Structural)]
pub enum DecodeError {
    /// The frame does not carry the kind of message asked for.
    WrongKind,
    /// The status bits do not form an emergency status.
    InvalidStatus,
    /// The reason bits do not form an emergency reason.
    InvalidReason,
    /// The payload bytes do not parse.
    InvalidPayload,
}

impl DecodeError {
    /// A short description of the error.
    pub fn as_str(&self) -> &'static str {
        match self {
            DecodeError::WrongKind => "frame is not of the requested kind",
            DecodeError::InvalidStatus => "invalid emergency status",
            DecodeError::InvalidReason => "invalid emergency reason",
            DecodeError::InvalidPayload => "payload does not parse",
        }
    }
}

/// What a frame holds: its identifier, its kind, the number of bytes in use
/// and the eight data bytes.
pub struct FrameModel {
    pub id: CanId,
    pub kind: ZanCanFrameType,
    pub len: nat,
    pub data: Seq<u8>,
}

impl FrameModel {
    pub open spec fn wf(self) -> bool {
        &&& self.id.wf()
        &&& self.kind == ZanCanFrameType::of_id(self.id)
        &&& self.len <= FRAME_DATA_LEN
        &&& self.data.len() == FRAME_DATA_LEN
    }
}

/// The standard identifier of a frame type sent to an address: the type code
/// above the address bits.
pub open spec fn compose_id(t: ZanCanFrameType, addr: u8) -> u16 {
    ((t.code_spec() as u16) << ADDRESS_BIT_LENGTH) | (addr as u16)
}

/// `payload` followed by zeros, up to eight bytes.
pub open spec fn padded(payload: Seq<u8>) -> Seq<u8> {
    payload + Seq::new((FRAME_DATA_LEN - payload.len()) as nat, |i: int| 0u8)
}

/// A frame of type `t` to `addr` whose data starts with `payload`.
pub open spec fn typed_frame(t: ZanCanFrameType, addr: u8, payload: Seq<u8>) -> FrameModel {
    FrameModel {
        id: CanId::Standard(compose_id(t, addr)),
        kind: t,
        len: payload.len(),
        data: padded(payload),
    }
}

/// Emergency layout: the status in bit 7 of the first byte, the reason's high
/// seven bits in bits 6 to 0 of it, the reason's low eight bits in the second.
pub open spec fn emergency_bytes(status: EmegencyStatus, reason: u16) -> Seq<u8> {
    seq![status.byte_spec() | ((reason >> 8u16) as u8), reason as u8]
}

pub open spec fn emergency_frame(addr: u8, status: EmegencyStatus, reason: u16) -> FrameModel {
    typed_frame(ZanCanFrameType::Emergency, addr, emergency_bytes(status, reason))
}

pub open spec fn error_frame(addr: u8, code: ErrorCode) -> FrameModel {
    typed_frame(ZanCanFrameType::Error, addr, be16(code.0))
}

pub open spec fn sent_data_frame(addr: u8, message: DataMessage) -> FrameModel {
    typed_frame(ZanCanFrameType::SentData, addr, message.encoding())
}

pub open spec fn request_data_frame(addr: u8, data_id: DataIdentifier) -> FrameModel {
    typed_frame(ZanCanFrameType::RequestData, addr, data_id.encoding())
}

pub open spec fn set_data_frame(addr: u8, message: DataMessage) -> FrameModel {
    typed_frame(ZanCanFrameType::SetData, addr, message.encoding())
}

/// The frame lifted from a received identifier, length code and data: at most
/// eight data bytes are copied, the rest is zero.
pub open spec fn lifted_frame(id: CanId, dlc: nat, data: Seq<u8>) -> FrameModel {
    FrameModel {
        id,
        kind: ZanCanFrameType::of_id(id),
        len: dlc,
        data: Seq::new(
            FRAME_DATA_LEN as nat,
            |i: int|
                if i < data.len() {
                    data[i]
                } else {
                    0u8
                },
        ),
    }
}

/// The reason carried in the low seven bits of `b0` and in `b1`.
pub open spec fn reason_bits(b0: u8, b1: u8) -> u16 {
    (((b0 & 0x7Fu8) as u16) << 8u16) | (b1 as u16)
}

pub open spec fn decode_emergency_spec(m: FrameModel) -> Result<
    (EmegencyStatus, u16),
    DecodeError,
> {
    if m.kind != ZanCanFrameType::Emergency {
        Err(DecodeError::WrongKind)
    } else {
        match EmegencyStatus::from_byte_spec(m.data[0] & 0x80u8) {
            None => Err(DecodeError::InvalidStatus),
            Some(status) => {
                let reason = reason_bits(m.data[0], m.data[1]);
                if reason <= REASON_MAX {
                    Ok((status, reason))
                } else {
                    Err(DecodeError::InvalidReason)
                }
            },
        }
    }
}

pub open spec fn decode_error_spec(m: FrameModel) -> Result<ErrorCode, DecodeError> {
    if m.kind != ZanCanFrameType::Error {
        Err(DecodeError::WrongKind)
    } else {
        Ok(ErrorCode(from_be16(m.data[0], m.data[1])))
    }
}

pub open spec fn parsed_message(kind: ZanCanFrameType, m: FrameModel) -> Result<
    DataMessage,
    DecodeError,
> {
    if m.kind != kind {
        Err(DecodeError::WrongKind)
    } else {
        match DataMessage::parse_spec(m.data) {
            Some(message) => Ok(message),
            None => Err(DecodeError::InvalidPayload),
        }
    }
}

pub open spec fn decode_sent_data_spec(m: FrameModel) -> Result<DataMessage, DecodeError> {
    parsed_message(ZanCanFrameType::SentData, m)
}

pub open spec fn decode_set_data_spec(m: FrameModel) -> Result<DataMessage, DecodeError> {
    parsed_message(ZanCanFrameType::SetData, m)
}

pub open spec fn decode_request_data_spec(m: FrameModel) -> Result<DataIdentifier, DecodeError> {
    if m.kind != ZanCanFrameType::RequestData {
        Err(DecodeError::WrongKind)
    } else {
        match DataIdentifier::parse_spec(m.data.take(m.len as int)) {
            Some(data_id) => Ok(data_id),
            None => Err(DecodeError::InvalidPayload),
        }
    }
}

/// The decoded emergency with the reason as its 16-bit form.
pub open spec fn emergency_result_view(
    r: Result<(EmegencyStatus, EmergencyReason), DecodeError>,
) -> Result<(EmegencyStatus, u16), DecodeError> {
    match r {
        Ok((status, reason)) => Ok((status, reason@)),
        Err(e) => Err(e),
    }
}

/// One frame of the protocol: a standard identifier naming the frame type and
/// the destination, and up to eight data bytes.
pub struct ZanCanFrame {
    id: CanId,
    data_len: usize,
    data: [u8; 8],
    f_type: ZanCanFrameType,
}

impl View for ZanCanFrame {
    type V = FrameModel;

    closed spec fn view(&self) -> FrameModel {
        FrameModel { id: self.id, kind: self.f_type, len: self.data_len as nat, data: self.data@ }
    }
}

fn id_from_type_and_address(t: ZanCanFrameType, addr: ZanCanAddress) -> (r: CanId)
    ensures
        r == CanId::Standard(compose_id(t, addr.0)),
        r.wf(),
        ZanCanFrameType::of_id(r) == t,
{
    let code = t.to_u8();
    let a = addr.as_u8();
    let mut id_u16: u16 = 0x0000;
    id_u16 = id_u16 | code as u16;
    id_u16 = id_u16 << ADDRESS_BIT_LENGTH;
    id_u16 = id_u16 | a as u16;
    assert(id_u16 == ((code as u16) << 8u16) | (a as u16) && id_u16 <= 0x7FF && ((id_u16 >> 8u16)
        as u8) == code) by (bit_vector)
        requires
            code < 8,
            id_u16 == (((0u16 | (code as u16)) << 8u16) | (a as u16)),
    ;
    match standard_id(id_u16) {
        Some(id) => id,
        None => CanId::Standard(0),
    }
}

impl ZanCanFrame {
    #[verifier::type_invariant]
    spec fn inv(self) -> bool {
        self@.wf()
    }

    /// Lifts a received frame given by its identifier, length code and data;
    /// the kind is classified from the identifier, whatever its format.
    pub fn from_frame(id: CanId, dlc: usize, data: &[u8]) -> (r: ZanCanFrame)
        requires
            id.wf(),
            dlc <= FRAME_DATA_LEN,
        ensures
            r@ == lifted_frame(id, dlc as nat, data@),
    {
        let f_type = ZanCanFrameType::from_id(id);
        let mut buf = [0u8; 8];
        let n: usize = if data.len() < FRAME_DATA_LEN {
            data.len()
        } else {
            FRAME_DATA_LEN
        };
        let mut i: usize = 0;
        while i < n
            invariant
                n <= FRAME_DATA_LEN,
                n <= data@.len(),
                n == data@.len() || n == FRAME_DATA_LEN,
                i <= n,
                buf@.len() == FRAME_DATA_LEN,
                forall|j: int| 0 <= j < i ==> buf@[j] == data@[j],
                forall|j: int| i <= j < FRAME_DATA_LEN ==> buf@[j] == 0,
            decreases n - i,
        {
            buf[i] = data[i];
            i = i + 1;
        }
        let r = ZanCanFrame { id, data_len: dlc, data: buf, f_type };
        assert(r@.data =~= lifted_frame(id, dlc as nat, data@).data);
        r
    }

    pub fn frame_type(&self) -> (r: ZanCanFrameType)
        ensures
            r == self@.kind,
    {
        self.f_type
    }

    /// An emergency frame: `status` in the top bit of the first byte, `reason`
    /// in the seven bits below it and in the second byte.
    pub fn new_emergency(addr: ZanCanAddress, status: EmegencyStatus, reason: EmergencyReason) -> (r:
        ZanCanFrame)
        ensures
            r@ == emergency_frame(addr.0, status, reason@),
    {
        let reason_u16 = reason.value();
        let mut data = [0u8; 8];
        // the reason never sets bit 15, so the status bit stays its own
        data[0] = status.to_u8() | (reason_u16 >> 8u16) as u8;
        data[1] = reason_u16 as u8;
        let id = id_from_type_and_address(ZanCanFrameType::Emergency, addr);
        let r = ZanCanFrame { id, data_len: 2, data, f_type: ZanCanFrameType::Emergency };
        assert(r@.data =~= emergency_frame(addr.0, status, reason@).data);
        r
    }

    pub fn decode_emergency(&self) -> (r: Result<(EmegencyStatus, EmergencyReason), DecodeError>)
        ensures
            emergency_result_view(r) == decode_emergency_spec(self@),
    {
        proof {
            use_type_invariant(self);
        }
        if self.f_type != ZanCanFrameType::Emergency {
            Err(DecodeError::WrongKind)
        } else {
            let status = match EmegencyStatus::from_u8(self.data[0] & 0x80u8) {
                Some(s) => s,
                None => {
                    return Err(DecodeError::InvalidStatus);
                },
            };
            let mut reason_u16: u16 = (self.data[0] & 0x7Fu8) as u16;
            reason_u16 = reason_u16 << 8u16;
            reason_u16 = reason_u16 | self.data[1] as u16;
            match EmergencyReason::new(reason_u16) {
                Some(reason) => Ok((status, reason)),
                None => Err(DecodeError::InvalidReason),
            }
        }
    }

    /// An error frame: the code big-endian in the first two bytes.
    pub fn new_error(addr: ZanCanAddress, code: ErrorCode) -> (r: ZanCanFrame)
        ensures
            r@ == error_frame(addr.0, code),
    {
        let mut data = [0u8; 8];
        let error_code_u16 = code.to_u16();
        data[0] = (error_code_u16 >> 8u16) as u8;
        data[1] = error_code_u16 as u8;
        let id = id_from_type_and_address(ZanCanFrameType::Error, addr);
        let r = ZanCanFrame { id, f_type: ZanCanFrameType::Error, data_len: 2, data };
        assert(r@.data =~= error_frame(addr.0, code).data);
        r
    }

    pub fn decode_error(&self) -> (r: Result<ErrorCode, DecodeError>)
        ensures
            r == decode_error_spec(self@),
    {
        proof {
            use_type_invariant(self);
        }
        if self.f_type != ZanCanFrameType::Error {
            Err(DecodeError::WrongKind)
        } else {
            let mut error_code_u16: u16 = self.data[0] as u16;
            error_code_u16 = error_code_u16 << 8u16;
            error_code_u16 = error_code_u16 | (self.data[1] as u16);
            Ok(ErrorCode::from_u16(error_code_u16))
        }
    }

    /// A frame of a data-carrying kind whose data starts with `message`.
    fn data_message_frame(t: ZanCanFrameType, addr: ZanCanAddress, message: DataMessage) -> (r:
        ZanCanFrame)
        ensures
            r@ == typed_frame(t, addr.0, message.encoding()),
    {
        let mut data = [0u8; 8];
        message.write(&mut data);
        let id = id_from_type_and_address(t, addr);
        let r = ZanCanFrame { id, f_type: t, data, data_len: message.len() };
        assert(r@.data =~= typed_frame(t, addr.0, message.encoding()).data);
        r
    }

    /// The data message of a frame of kind `t`, parsed from all eight bytes.
    fn decode_data_message(&self, t: ZanCanFrameType) -> (r: Result<DataMessage, DecodeError>)
        ensures
            r == parsed_message(t, self@),
    {
        if self.f_type != t {
            Err(DecodeError::WrongKind)
        } else {
            match DataMessage::from_bytes(self.data.as_slice()) {
                Some(d_m) => Ok(d_m),
                None => Err(DecodeError::InvalidPayload),
            }
        }
    }

    pub fn new_sent_data(addr: ZanCanAddress, message: DataMessage) -> (r: ZanCanFrame)
        ensures
            r@ == sent_data_frame(addr.0, message),
    {
        Self::data_message_frame(ZanCanFrameType::SentData, addr, message)
    }

    pub fn decode_sent_data(&self) -> (r: Result<DataMessage, DecodeError>)
        ensures
            r == decode_sent_data_spec(self@),
    {
        self.decode_data_message(ZanCanFrameType::SentData)
    }

    /// A request frame: the data identifier at the front of the data.
    pub fn new_request_data(addr: ZanCanAddress, data_id: DataIdentifier) -> (r: ZanCanFrame)
        ensures
            r@ == request_data_frame(addr.0, data_id),
    {
        let mut data = [0u8; 8];
        data_id.write(&mut data);
        let id = id_from_type_and_address(ZanCanFrameType::RequestData, addr);
        let r = ZanCanFrame {
            id,
            f_type: ZanCanFrameType::RequestData,
            data,
            data_len: data_id.len(),
        };
        assert(r@.data =~= request_data_frame(addr.0, data_id).data);
        r
    }

    /// The data identifier, parsed from exactly the bytes in use.
    pub fn decode_request_data(&self) -> (r: Result<DataIdentifier, DecodeError>)
        ensures
            r == decode_request_data_spec(self@),
    {
        proof {
            use_type_invariant(self);
        }
        if self.f_type != ZanCanFrameType::RequestData {
            Err(DecodeError::WrongKind)
        } else {
            let used = slice_subrange(self.data.as_slice(), 0, self.data_len);
            assert(used@ =~= self@.data.take(self@.len as int));
            match DataIdentifier::from_bytes(used) {
                Some(d_id) => Ok(d_id),
                None => Err(DecodeError::InvalidPayload),
            }
        }
    }

    pub fn new_set_data(addr: ZanCanAddress, message: DataMessage) -> (r: ZanCanFrame)
        ensures
            r@ == set_data_frame(addr.0, message),
    {
        Self::data_message_frame(ZanCanFrameType::SetData, addr, message)
    }

    pub fn decode_set_data(&self) -> (r: Result<DataMessage, DecodeError>)
        ensures
            r == decode_set_data_spec(self@),
    {
        self.decode_data_message(ZanCanFrameType::SetData)
    }

    /// The identifier of the frame.
    pub fn id(&self) -> (r: CanId)
        ensures
            r == self@.id,
    {
        self.id
    }

    /// The number of data bytes in use.
    pub fn dlc(&self) -> (r: usize)
        ensures
            r == self@.len,
    {
        self.data_len
    }

    /// The data bytes in use.
    pub fn data(&self) -> (r: &[u8])
        ensures
            r@ == self@.data.take(self@.len as int),
    {
        proof {
            use_type_invariant(self);
        }
        slice_subrange(self.data.as_slice(), 0, self.data_len)
    }

    /// Frames of this protocol are never reported as extended, even when
    /// lifted from an extended identifier.
    pub fn is_extended(&self) -> (r: bool)
        ensures
            !r,
    {
        false
    }

    /// Frames of this protocol are never remote requests.
    pub fn is_remote_frame(&self) -> (r: bool)
        ensures
            !r,
    {
        false
    }
}

} // verus!
