use crate::address::ADDRESS_BIT_LENGTH;
use crate::emegency::{EmegencyStatus, REASON_MAX};
use crate::error::ErrorCode;
use crate::message_data::{lemma_be16_round_trip, lemma_be32_round_trip, DataIdentifier, DataMessage};
use crate::zan_can_type::{CanId, ZanCanFrameType, STANDARD_ID_MAX};
use crate::{
    compose_id, decode_emergency_spec, decode_error_spec, decode_request_data_spec,
    decode_sent_data_spec, decode_set_data_spec, emergency_frame, error_frame, lifted_frame,
    reason_bits, request_data_frame, sent_data_frame, set_data_frame, DecodeError, FrameModel,
};
use vstd::prelude::*;

verus! {

/// The decoder for kind `j` refuses `m` as being of another kind; no decoder
/// takes a frame as `Unknown`.
pub open spec fn refused_as_wrong_kind(m: FrameModel, j: ZanCanFrameType) -> bool {
    match j {
        ZanCanFrameType::Emergency => decode_emergency_spec(m) == Err::<
            (EmegencyStatus, u16),
            DecodeError,
        >(DecodeError::WrongKind),
        ZanCanFrameType::Error => decode_error_spec(m) == Err::<ErrorCode, DecodeError>(
            DecodeError::WrongKind,
        ),
        ZanCanFrameType::SentData => decode_sent_data_spec(m) == Err::<DataMessage, DecodeError>(
            DecodeError::WrongKind,
        ),
        ZanCanFrameType::RequestData => decode_request_data_spec(m) == Err::<
            DataIdentifier,
            DecodeError,
        >(DecodeError::WrongKind),
        ZanCanFrameType::SetData => decode_set_data_spec(m) == Err::<DataMessage, DecodeError>(
            DecodeError::WrongKind,
        ),
        ZanCanFrameType::Unknown => true,
    }
}

/// Round trip: decoding a frame built for a kind gives back the payload it
/// was built from, for every address.
pub proof fn lemma_round_trip(
    addr: u8,
    status: EmegencyStatus,
    reason: u16,
    code: ErrorCode,
    message: DataMessage,
    data_id: DataIdentifier,
)
    requires
        reason <= REASON_MAX,
    ensures
        decode_emergency_spec(emergency_frame(addr, status, reason)) == Ok::<
            (EmegencyStatus, u16),
            DecodeError,
        >((status, reason)),
        decode_error_spec(error_frame(addr, code)) == Ok::<ErrorCode, DecodeError>(code),
        decode_sent_data_spec(sent_data_frame(addr, message)) == Ok::<DataMessage, DecodeError>(
            message,
        ),
        decode_request_data_spec(request_data_frame(addr, data_id)) == Ok::<
            DataIdentifier,
            DecodeError,
        >(data_id),
        decode_set_data_spec(set_data_frame(addr, message)) == Ok::<DataMessage, DecodeError>(
            message,
        ),
{
    let b = status.byte_spec();
    assert(((b | ((reason >> 8u16) as u8)) & 0x80u8) == b && reason_bits(
        b | ((reason >> 8u16) as u8),
        reason as u8,
    ) == reason) by (bit_vector)
        requires
            b == 0 || b == 0x80,
            reason <= 0x7FFF,
    ;
    lemma_be16_round_trip(code.0);
    lemma_be16_round_trip(message.id.0);
    lemma_be32_round_trip(message.value);
    lemma_be16_round_trip(data_id.0);
    let q = request_data_frame(addr, data_id);
    assert(q.data.take(q.len as int) =~= data_id.encoding());
}

/// Kind isolation: a frame built for one kind is refused as the wrong kind by
/// the decoder of every other kind, and not by its own.
pub proof fn lemma_kind_isolation(
    addr: u8,
    status: EmegencyStatus,
    reason: u16,
    code: ErrorCode,
    message: DataMessage,
    data_id: DataIdentifier,
    j: ZanCanFrameType,
)
    ensures
        refused_as_wrong_kind(emergency_frame(addr, status, reason), j) <==> j
            != ZanCanFrameType::Emergency,
        refused_as_wrong_kind(error_frame(addr, code), j) <==> j != ZanCanFrameType::Error,
        refused_as_wrong_kind(sent_data_frame(addr, message), j) <==> j
            != ZanCanFrameType::SentData,
        refused_as_wrong_kind(request_data_frame(addr, data_id), j) <==> j
            != ZanCanFrameType::RequestData,
        refused_as_wrong_kind(set_data_frame(addr, message), j) <==> j
            != ZanCanFrameType::SetData,
{
}

/// Identifier composition: the identifier of a frame type and an address is
/// the type code above the address bits; it fits in eleven bits, and its type
/// field and address field give back the code and the address.
pub proof fn lemma_identifier_composition(t: ZanCanFrameType, addr: u8)
    ensures
        compose_id(t, addr) == t.code_spec() as int * 256 + addr as int,
        compose_id(t, addr) <= STANDARD_ID_MAX,
        (compose_id(t, addr) >> ADDRESS_BIT_LENGTH) == t.code_spec() as u16,
        (compose_id(t, addr) & 0xFFu16) == addr as u16,
        ZanCanFrameType::of_id(CanId::Standard(compose_id(t, addr))) == t,
{
    let c = t.code_spec();
    assert(c < 8);
    assert(((c as u16) << 8u16) | (addr as u16) == (c as u16) * 256 + (addr as u16) && ((
    (c as u16) << 8u16) | (addr as u16)) <= 0x7FF && ((((c as u16) << 8u16) | (addr as u16))
        >> 8u16) == c as u16 && ((((c as u16) << 8u16) | (addr as u16)) & 0xFFu16) == addr as u16)
        by (bit_vector)
        requires
            c < 8,
    ;
}

/// Emergency decoding of an emergency frame always succeeds: every pattern
/// of the seven high and eight low reason bits is a reason, none sets bit 15,
/// and the status bit is always a status.
pub proof fn lemma_emergency_reason_in_range(m: FrameModel)
    requires
        m.wf(),
        m.kind == ZanCanFrameType::Emergency,
    ensures
        decode_emergency_spec(m) is Ok,
        decode_emergency_spec(m) matches Ok((s, r)) ==> r <= REASON_MAX && r == reason_bits(
            m.data[0],
            m.data[1],
        ),
{
    let b0 = m.data[0];
    let b1 = m.data[1];
    assert((b0 & 0x80u8) == 0 || (b0 & 0x80u8) == 0x80) by (bit_vector);
    assert(reason_bits(b0, b1) <= 0x7FFF) by (bit_vector);
}

/// Lift, then classify: a received frame whose base identifier is that of a
/// frame type and an address is classified as that type, whether its
/// identifier is standard or extended, whatever its data.
pub proof fn lemma_lift_classifies(
    t: ZanCanFrameType,
    addr: u8,
    id: CanId,
    dlc: nat,
    data: Seq<u8>,
)
    requires
        id.wf(),
        id.base_spec() == compose_id(t, addr),
    ensures
        lifted_frame(id, dlc, data).kind == t,
{
    lemma_identifier_composition(t, addr);
}

} // verus!
