use std::convert::TryFrom;

use stm32wb_hci::vendor::event::VendorStatus;
use stm32wb_hci::{BadStatusError, Status};

#[test]
fn success_is_zero() {
    assert_eq!(Status::try_from(0x00u8), Ok(Status::Success));
    assert_eq!(u8::from(Status::Success), 0x00);
}

#[test]
fn reads_standard_codes() {
    assert_eq!(Status::try_from(0x05u8), Ok(Status::AuthFailure));
    assert_eq!(Status::try_from(0x0Cu8), Ok(Status::CommandDisallowed));
    assert_eq!(Status::try_from(0x12u8), Ok(Status::InvalidParameters));
    assert_eq!(Status::try_from(0x3Au8), Ok(Status::ControllerBusy));
    assert_eq!(Status::try_from(0x44u8), Ok(Status::OperationCancelledByHost));
}

#[test]
fn writes_standard_codes() {
    assert_eq!(u8::from(Status::UnknownCommand), 0x01);
    assert_eq!(u8::from(Status::RemoteTerminationByUser), 0x13);
    assert_eq!(u8::from(Status::CoarseClockAdjustmentRejectedDraggingAttempted), 0x40);
    assert_eq!(u8::from(Status::Type0SubmapNotDefined), 0x41);
    assert_eq!(u8::from(Status::LimitReached), 0x43);
}

#[test]
fn reads_vendor_codes() {
    assert_eq!(Status::try_from(0x46u8), Ok(Status::Vendor(VendorStatus::NotAllowed)));
    assert_eq!(Status::try_from(0x60u8), Ok(Status::Vendor(VendorStatus::InvalidHandle)));
    assert_eq!(Status::try_from(0xFFu8), Ok(Status::Vendor(VendorStatus::Timeout)));
    assert_eq!(Status::try_from(0xF1u8), Ok(Status::Vendor(VendorStatus::NullParameter)));
}

#[test]
fn writes_vendor_codes() {
    assert_eq!(u8::from(Status::Vendor(VendorStatus::Error)), 0x47);
    assert_eq!(u8::from(Status::Vendor(VendorStatus::CharacteristicAlreadyExists)), 0x66);
    assert_eq!(u8::from(VendorStatus::ProfileAlreadyInitialized), 0xF0);
}

#[test]
fn refuses_unknown_codes() {
    assert_eq!(Status::try_from(0x45u8), Err(BadStatusError::BadValue(0x45)));
    assert_eq!(Status::try_from(0x4Cu8), Err(BadStatusError::BadValue(0x4C)));
    assert_eq!(Status::try_from(0x80u8), Err(BadStatusError::BadValue(0x80)));
    assert_eq!(Status::try_from(0xFEu8), Err(BadStatusError::BadValue(0xFE)));
}

#[test]
fn vendor_status_alone() {
    assert_eq!(VendorStatus::try_from(0x41u8), Ok(VendorStatus::Failed));
    assert_eq!(VendorStatus::try_from(0x5Au8), Ok(VendorStatus::CsrkNotFound));
    assert_eq!(VendorStatus::try_from(0x00u8), Err(BadStatusError::BadValue(0x00)));
}

#[test]
fn specification_code_wins_over_vendor_code() {
    // 0x41 is both a code of the specification and a vendor code; it reads as the former.
    assert_eq!(u8::from(Status::Vendor(VendorStatus::Failed)), 0x41);
    assert_eq!(Status::try_from(0x41u8), Ok(Status::Type0SubmapNotDefined));
}

#[test]
fn every_byte_read_is_written_back() {
    for b in 0..=255u8 {
        if let Ok(s) = Status::try_from(b) {
            assert_eq!(u8::from(s), b);
        } else {
            assert_eq!(Status::try_from(b), Err(BadStatusError::BadValue(b)));
        }
    }
}

#[test]
fn standard_codes_round_trip() {
    for b in 0..=0x44u8 {
        let s = Status::try_from(b).unwrap();
        assert!(!matches!(s, Status::Vendor(_)));
        assert_eq!(Status::try_from(u8::from(s)), Ok(s));
    }
}

#[test]
fn accepted_byte_count() {
    let accepted = (0..=255u8).filter(|b| Status::try_from(*b).is_ok()).count();
    // 69 codes of the specification, and the 30 vendor codes above 0x44.
    assert_eq!(accepted, 99);
}
