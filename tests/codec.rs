use zan_can::address::ZanCanAddress;
use zan_can::emegency::{EmegencyStatus, EmergencyReason};
use zan_can::error::ErrorCode;
use zan_can::message_data::{DataIdentifier, DataMessage};
use zan_can::zan_can_type::{standard_id, CanId, ZanCanFrameType};
use zan_can::{DecodeError, ZanCanFrame};

fn reason(raw: u16) -> EmergencyReason {
    EmergencyReason::new(raw).unwrap()
}

fn message() -> DataMessage {
    DataMessage { id: DataIdentifier(0x0102), value: 0xDEAD_BEEF }
}

#[test]
fn emergency_round_trip() {
    for addr in [0u8, 1, 0x7F, 0xFF] {
        for status in [EmegencyStatus::Inactive, EmegencyStatus::Active] {
            for raw in [0u16, 1, 0x1234, 0x7FFF] {
                let f = ZanCanFrame::new_emergency(ZanCanAddress(addr), status, reason(raw));
                let (s, r) = f.decode_emergency().unwrap();
                assert_eq!(s, status);
                assert_eq!(r.value(), raw);
            }
        }
    }
}

#[test]
fn error_round_trip() {
    for code in [0u16, 1, 0x00FF, 0xFF00, 0xFFFF] {
        let f = ZanCanFrame::new_error(ZanCanAddress(9), ErrorCode(code));
        assert_eq!(f.decode_error(), Ok(ErrorCode(code)));
    }
}

#[test]
fn data_round_trips() {
    let addr = ZanCanAddress(0x42);
    let sent = ZanCanFrame::new_sent_data(addr, message());
    assert_eq!(sent.decode_sent_data(), Ok(message()));
    let set = ZanCanFrame::new_set_data(addr, message());
    assert_eq!(set.decode_set_data(), Ok(message()));
    let req = ZanCanFrame::new_request_data(addr, DataIdentifier(0xBEEF));
    assert_eq!(req.decode_request_data(), Ok(DataIdentifier(0xBEEF)));
}

#[test]
fn data_frame_layout() {
    let sent = ZanCanFrame::new_sent_data(ZanCanAddress(1), message());
    assert_eq!(sent.dlc(), 6);
    assert_eq!(sent.data(), &[0x01, 0x02, 0xDE, 0xAD, 0xBE, 0xEF]);
    let req = ZanCanFrame::new_request_data(ZanCanAddress(1), DataIdentifier(0xBEEF));
    assert_eq!(req.dlc(), 2);
    assert_eq!(req.data(), &[0xBE, 0xEF]);
}

#[test]
fn kind_isolation() {
    let addr = ZanCanAddress(5);
    let frames = [
        ZanCanFrame::new_emergency(addr, EmegencyStatus::Active, reason(7)),
        ZanCanFrame::new_error(addr, ErrorCode(7)),
        ZanCanFrame::new_sent_data(addr, message()),
        ZanCanFrame::new_request_data(addr, DataIdentifier(7)),
        ZanCanFrame::new_set_data(addr, message()),
    ];
    for (k, f) in frames.iter().enumerate() {
        let wrong = [
            f.decode_emergency().err() == Some(DecodeError::WrongKind),
            f.decode_error().err() == Some(DecodeError::WrongKind),
            f.decode_sent_data().err() == Some(DecodeError::WrongKind),
            f.decode_request_data().err() == Some(DecodeError::WrongKind),
            f.decode_set_data().err() == Some(DecodeError::WrongKind),
        ];
        for (j, w) in wrong.iter().enumerate() {
            assert_eq!(*w, j != k, "frame {} decoded as {}", k, j);
        }
    }
}

#[test]
fn identifier_composition() {
    let kinds = [
        (ZanCanFrameType::Emergency, 0u16),
        (ZanCanFrameType::Error, 1),
        (ZanCanFrameType::SentData, 2),
        (ZanCanFrameType::RequestData, 3),
        (ZanCanFrameType::SetData, 4),
    ];
    for addr in [0u8, 0x12, 0xFF] {
        let frames = [
            ZanCanFrame::new_emergency(ZanCanAddress(addr), EmegencyStatus::Inactive, reason(0)),
            ZanCanFrame::new_error(ZanCanAddress(addr), ErrorCode(0)),
            ZanCanFrame::new_sent_data(ZanCanAddress(addr), message()),
            ZanCanFrame::new_request_data(ZanCanAddress(addr), DataIdentifier(0)),
            ZanCanFrame::new_set_data(ZanCanAddress(addr), message()),
        ];
        for (f, (t, code)) in frames.iter().zip(kinds.iter()) {
            let expected = (code << 8) | addr as u16;
            assert_eq!(f.id(), CanId::Standard(expected));
            assert_eq!(f.frame_type(), *t);
            assert_eq!(t.to_u8() as u16, *code);
            assert_eq!(ZanCanFrameType::from_id(f.id()), *t);
            assert!(!f.is_extended());
            assert!(!f.is_remote_frame());
        }
    }
    let set = ZanCanFrame::new_set_data(ZanCanAddress(0xFF), message());
    assert_eq!(set.id(), CanId::Standard(0x4FF));
}

#[test]
fn emergency_bit_packing() {
    let f = ZanCanFrame::new_emergency(ZanCanAddress(3), EmegencyStatus::Active, reason(0x1234));
    assert_eq!(f.dlc(), 2);
    assert_eq!(f.data(), &[0x92, 0x34]);
    assert_eq!(f.data()[0] & 0x80, 0x80);
    assert_eq!(f.data()[0] & 0x7F, (0x1234u16 >> 8) as u8);
    assert_eq!(f.data()[1], 0x34);
    let (s, r) = f.decode_emergency().unwrap();
    assert_eq!(s, EmegencyStatus::Active);
    assert_eq!(r.value(), 0x1234);
}

#[test]
fn emergency_inactive_packing() {
    let f = ZanCanFrame::new_emergency(ZanCanAddress(3), EmegencyStatus::Inactive, reason(0x7FFF));
    assert_eq!(f.data(), &[0x7F, 0xFF]);
}

#[test]
fn error_byte_order() {
    let f = ZanCanFrame::new_error(ZanCanAddress(3), ErrorCode(0xABCD));
    assert_eq!(f.dlc(), 2);
    assert_eq!(f.data(), &[0xAB, 0xCD]);
    assert_eq!(f.decode_error(), Ok(ErrorCode(0xABCD)));
    assert_eq!(f.decode_error().unwrap().to_u16(), 0xABCD);
}

#[test]
fn reason_with_bit_fifteen_is_refused() {
    assert!(EmergencyReason::new(0x8000).is_none());
    assert!(EmergencyReason::new(0xFFFF).is_none());
    assert_eq!(EmergencyReason::new(0x7FFF).map(|r| r.value()), Some(0x7FFF));
}

#[test]
fn received_emergency_with_all_reason_bits_set() {
    let f = ZanCanFrame::from_frame(CanId::Standard(0x010), 2, &[0xFF, 0xFF]);
    assert_eq!(f.frame_type(), ZanCanFrameType::Emergency);
    let (s, r) = f.decode_emergency().unwrap();
    assert_eq!(s, EmegencyStatus::Active);
    assert_eq!(r.value(), 0x7FFF);
}

#[test]
fn lift_then_classify_standard() {
    let f = ZanCanFrame::from_frame(CanId::Standard(0x2AB), 6, &[0, 1, 0, 0, 0, 9]);
    assert_eq!(f.frame_type(), ZanCanFrameType::SentData);
    assert_eq!(f.id(), CanId::Standard(0x2AB));
    assert!(!f.is_extended());
    assert_eq!(
        f.decode_sent_data(),
        Ok(DataMessage { id: DataIdentifier(1), value: 9 })
    );
}

#[test]
fn lift_then_classify_extended() {
    // base identifier 0x2AB sits in bits 28 to 18
    let raw = (0x2ABu32 << 18) | 0x1_2345;
    let f = ZanCanFrame::from_frame(CanId::Extended(raw), 0, &[]);
    assert_eq!(f.frame_type(), ZanCanFrameType::SentData);
    assert_eq!(f.id(), CanId::Extended(raw));
    assert!(!f.is_extended());
    assert!(!f.is_remote_frame());
    assert_eq!(f.dlc(), 0);
}

#[test]
fn lift_unknown_type_code() {
    let f = ZanCanFrame::from_frame(CanId::Standard(0x5AB), 2, &[1, 2]);
    assert_eq!(f.frame_type(), ZanCanFrameType::Unknown);
    assert_eq!(f.decode_error(), Err(DecodeError::WrongKind));
    assert_eq!(f.decode_emergency().err(), Some(DecodeError::WrongKind));
}

#[test]
fn lift_truncates_to_eight_bytes() {
    let f = ZanCanFrame::from_frame(CanId::Standard(0x100), 8, &[1, 2, 3, 4, 5, 6, 7, 8, 9, 10]);
    assert_eq!(f.data(), &[1, 2, 3, 4, 5, 6, 7, 8]);
    assert_eq!(f.decode_error(), Ok(ErrorCode(0x0102)));
}

#[test]
fn request_data_uses_only_bytes_in_use() {
    let f = ZanCanFrame::from_frame(CanId::Standard(0x300), 3, &[0xBE, 0xEF, 0x00]);
    assert_eq!(f.decode_request_data(), Err(DecodeError::InvalidPayload));
    let g = ZanCanFrame::from_frame(CanId::Standard(0x300), 2, &[0xBE, 0xEF]);
    assert_eq!(g.decode_request_data(), Ok(DataIdentifier(0xBEEF)));
}

#[test]
fn sent_data_parses_whole_window() {
    let f = ZanCanFrame::from_frame(CanId::Standard(0x200), 1, &[0xAA]);
    assert_eq!(
        f.decode_sent_data(),
        Ok(DataMessage { id: DataIdentifier(0xAA00), value: 0 })
    );
}

#[test]
fn payload_parsers() {
    assert_eq!(DataMessage::from_bytes(&[0, 1, 0, 0, 0]), None);
    assert_eq!(
        DataMessage::from_bytes(&[0, 1, 0, 0, 0, 2, 0xFF]),
        Some(DataMessage { id: DataIdentifier(1), value: 2 })
    );
    assert_eq!(DataIdentifier::from_bytes(&[1]), None);
    assert_eq!(DataIdentifier::from_bytes(&[1, 2]), Some(DataIdentifier(0x0102)));
}

#[test]
fn standard_id_range() {
    assert_eq!(standard_id(0x7FF), Some(CanId::Standard(0x7FF)));
    assert_eq!(standard_id(0x123), Some(CanId::Standard(0x123)));
    assert_eq!(standard_id(0x800), None);
}

#[test]
fn status_bytes() {
    assert_eq!(EmegencyStatus::Active.to_u8(), 0x80);
    assert_eq!(EmegencyStatus::Inactive.to_u8(), 0x00);
    assert_eq!(EmegencyStatus::from_u8(0x80), Some(EmegencyStatus::Active));
    assert_eq!(EmegencyStatus::from_u8(0x00), Some(EmegencyStatus::Inactive));
    assert_eq!(EmegencyStatus::from_u8(0x01), None);
}

#[test]
fn frame_type_codes() {
    assert_eq!(ZanCanFrameType::from_u8(2), ZanCanFrameType::SentData);
    assert_eq!(ZanCanFrameType::from_u8(6), ZanCanFrameType::Unknown);
    assert_eq!(ZanCanFrameType::Unknown.to_u8(), 7);
}

#[test]
fn error_messages() {
    assert_eq!(DecodeError::WrongKind.as_str(), "frame is not of the requested kind");
    assert_eq!(DecodeError::InvalidStatus.as_str(), "invalid emergency status");
    assert_eq!(DecodeError::InvalidReason.as_str(), "invalid emergency reason");
    assert_eq!(DecodeError::InvalidPayload.as_str(), "payload does not parse");
}
