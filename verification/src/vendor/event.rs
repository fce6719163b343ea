//! Vendor-specific status codes.
use vstd::prelude::*;

use crate::status::BadStatusError;

verus! {

/// Enumeration of vendor-specific status codes.
#[derive(Copy, Clone, Debug, PartialEq, Eq)]
pub enum VendorStatus {
    /// The command cannot be executed due to the current state of the device.
    Failed,
    /// Some parameters are invalid.
    InvalidParameters,
    /// It is not allowed to start the procedure (e.g. another procedure is ongoing or cannot be
    /// started on the given handle).
    NotAllowed,
    /// Unexpected error.
    Error,
    /// The address was not resolved.
    AddressNotResolved,
    /// Failed to read from flash.
    FlashReadFailed,
    /// Failed to write to flash.
    FlashWriteFailed,
    /// Failed to erase flash.
    FlashEraseFailed,
    /// Invalid CID.
    InvalidCid,
    /// Timer is not valid.
    TimerNotValidLayer,
    /// Insufficient resources to create the timer.
    TimerInsufficientResources,
    /// Connection signature resolving key (CSRK) is not found.
    CsrkNotFound,
    /// Identity resolving key (IRK) is not found.
    IrkNotFound,
    /// The device is not in the security database.
    DeviceNotFoundInDatabase,
    /// The security database is full.
    SecurityDatabaseFull,
    /// The device is not bonded.
    DeviceNotBonded,
    /// The device is blacklisted.
    DeviceInBlacklist,
    /// The handle (service, characteristic, or descriptor) is invalid.
    InvalidHandle,
    /// A parameter is invalid.
    InvalidParameter,
    /// The characteristic handle is not part of the service.
    OutOfHandle,
    /// The operation is invalid.
    InvalidOperation,
    /// Not enough resources to complete the operation.
    InsufficientResources,
    /// The encryption key size is too small.
    InsufficientEncryptionKeySize,
    /// The characteristic already exists.
    CharacteristicAlreadyExists,
    /// No valid slot is available (e.g. no state machine is free).
    NoValidSlot,
    /// A scan window shorter than the minimum allowed value was requested.
    ScanWindowTooShort,
    /// The new connection interval could not be allocated.
    NewIntervalFailed,
    /// The connection interval is too large.
    IntervalTooLarge,
    /// The requested length could not be allocated.
    LengthFailed,
    /// Timeout.
    Timeout,
    /// The profile is already initialized.
    ProfileAlreadyInitialized,
    /// A null parameter was passed.
    NullParameter,
}

/// The byte that encodes a vendor-specific status.
pub open spec fn vendor_status_code(v: VendorStatus) -> u8 {
    match v {
        VendorStatus::Failed => 0x41,
        VendorStatus::InvalidParameters => 0x42,
        VendorStatus::NotAllowed => 0x46,
        VendorStatus::Error => 0x47,
        VendorStatus::AddressNotResolved => 0x48,
        VendorStatus::FlashReadFailed => 0x49,
        VendorStatus::FlashWriteFailed => 0x4A,
        VendorStatus::FlashEraseFailed => 0x4B,
        VendorStatus::InvalidCid => 0x50,
        VendorStatus::TimerNotValidLayer => 0x54,
        VendorStatus::TimerInsufficientResources => 0x55,
        VendorStatus::CsrkNotFound => 0x5A,
        VendorStatus::IrkNotFound => 0x5B,
        VendorStatus::DeviceNotFoundInDatabase => 0x5C,
        VendorStatus::SecurityDatabaseFull => 0x5D,
        VendorStatus::DeviceNotBonded => 0x5E,
        VendorStatus::DeviceInBlacklist => 0x5F,
        VendorStatus::InvalidHandle => 0x60,
        VendorStatus::InvalidParameter => 0x61,
        VendorStatus::OutOfHandle => 0x62,
        VendorStatus::InvalidOperation => 0x63,
        VendorStatus::InsufficientResources => 0x64,
        VendorStatus::InsufficientEncryptionKeySize => 0x65,
        VendorStatus::CharacteristicAlreadyExists => 0x66,
        VendorStatus::NoValidSlot => 0x82,
        VendorStatus::ScanWindowTooShort => 0x83,
        VendorStatus::NewIntervalFailed => 0x84,
        VendorStatus::IntervalTooLarge => 0x85,
        VendorStatus::LengthFailed => 0x86,
        VendorStatus::Timeout => 0xFF,
        VendorStatus::ProfileAlreadyInitialized => 0xF0,
        VendorStatus::NullParameter => 0xF1,
    }
}

/// Whether the byte encodes some vendor-specific status.
pub open spec fn is_vendor_status_code(b: u8) -> bool {
    exists|v: VendorStatus| #[trigger] vendor_status_code(v) == b
}

/// The vendor-specific status that the byte encodes, or the byte back as an error.
pub open spec fn vendor_status_from_code(b: u8) -> Result<VendorStatus, BadStatusError> {
    if is_vendor_status_code(b) {
        Ok(choose|v: VendorStatus| #[trigger] vendor_status_code(v) == b)
    } else {
        Err(BadStatusError::BadValue(b))
    }
}

/// No two vendor-specific statuses share a code.
pub proof fn lemma_vendor_status_code_injective(v1: VendorStatus, v2: VendorStatus)
    requires
        vendor_status_code(v1) == vendor_status_code(v2),
    ensures
        v1 == v2,
{
}

/// Every vendor-specific status is read back from its own code.
pub proof fn lemma_vendor_status_code_round_trip(v: VendorStatus)
    ensures
        vendor_status_from_code(vendor_status_code(v)) == Ok::<VendorStatus, BadStatusError>(v),
{
    let b = vendor_status_code(v);
    assert(is_vendor_status_code(b));
    let w = choose|w: VendorStatus| #[trigger] vendor_status_code(w) == b;
    lemma_vendor_status_code_injective(v, w);
}

/// A byte that is read as a vendor-specific status is that status's code; any other byte is
/// refused with the byte itself.
pub proof fn lemma_vendor_status_from_code_encodes(b: u8)
    ensures
        vendor_status_from_code(b) matches Ok(v) ==> vendor_status_code(v) == b,
        vendor_status_from_code(b) is Err <==> !is_vendor_status_code(b),
        vendor_status_from_code(b) matches Err(e) ==> e == BadStatusError::BadValue(b),
{
}

/// The vendor-specific status codes, byte by byte: each vendor-specific status is written as its
/// assigned byte.
pub proof fn lemma_vendor_status_code_table()
    ensures
        vendor_status_code(VendorStatus::Failed) == 0x41,
        vendor_status_code(VendorStatus::InvalidParameters) == 0x42,
        vendor_status_code(VendorStatus::NotAllowed) == 0x46,
        vendor_status_code(VendorStatus::Error) == 0x47,
        vendor_status_code(VendorStatus::AddressNotResolved) == 0x48,
        vendor_status_code(VendorStatus::FlashReadFailed) == 0x49,
        vendor_status_code(VendorStatus::FlashWriteFailed) == 0x4A,
        vendor_status_code(VendorStatus::FlashEraseFailed) == 0x4B,
        vendor_status_code(VendorStatus::InvalidCid) == 0x50,
        vendor_status_code(VendorStatus::TimerNotValidLayer) == 0x54,
        vendor_status_code(VendorStatus::TimerInsufficientResources) == 0x55,
        vendor_status_code(VendorStatus::CsrkNotFound) == 0x5A,
        vendor_status_code(VendorStatus::IrkNotFound) == 0x5B,
        vendor_status_code(VendorStatus::DeviceNotFoundInDatabase) == 0x5C,
        vendor_status_code(VendorStatus::SecurityDatabaseFull) == 0x5D,
        vendor_status_code(VendorStatus::DeviceNotBonded) == 0x5E,
        vendor_status_code(VendorStatus::DeviceInBlacklist) == 0x5F,
        vendor_status_code(VendorStatus::InvalidHandle) == 0x60,
        vendor_status_code(VendorStatus::InvalidParameter) == 0x61,
        vendor_status_code(VendorStatus::OutOfHandle) == 0x62,
        vendor_status_code(VendorStatus::InvalidOperation) == 0x63,
        vendor_status_code(VendorStatus::InsufficientResources) == 0x64,
        vendor_status_code(VendorStatus::InsufficientEncryptionKeySize) == 0x65,
        vendor_status_code(VendorStatus::CharacteristicAlreadyExists) == 0x66,
        vendor_status_code(VendorStatus::NoValidSlot) == 0x82,
        vendor_status_code(VendorStatus::ScanWindowTooShort) == 0x83,
        vendor_status_code(VendorStatus::NewIntervalFailed) == 0x84,
        vendor_status_code(VendorStatus::IntervalTooLarge) == 0x85,
        vendor_status_code(VendorStatus::LengthFailed) == 0x86,
        vendor_status_code(VendorStatus::Timeout) == 0xFF,
        vendor_status_code(VendorStatus::ProfileAlreadyInitialized) == 0xF0,
        vendor_status_code(VendorStatus::NullParameter) == 0xF1,
{
}

/// The vendor-specific status codes, byte by byte: each assigned byte is read as its status.
pub proof fn lemma_vendor_status_from_code_table()
    ensures
        vendor_status_from_code(0x41) == Ok::<VendorStatus, BadStatusError>(VendorStatus::Failed),
        vendor_status_from_code(0x42) == Ok::<VendorStatus, BadStatusError>(VendorStatus::InvalidParameters),
        vendor_status_from_code(0x46) == Ok::<VendorStatus, BadStatusError>(VendorStatus::NotAllowed),
        vendor_status_from_code(0x47) == Ok::<VendorStatus, BadStatusError>(VendorStatus::Error),
        vendor_status_from_code(0x48) == Ok::<VendorStatus, BadStatusError>(VendorStatus::AddressNotResolved),
        vendor_status_from_code(0x49) == Ok::<VendorStatus, BadStatusError>(VendorStatus::FlashReadFailed),
        vendor_status_from_code(0x4A) == Ok::<VendorStatus, BadStatusError>(VendorStatus::FlashWriteFailed),
        vendor_status_from_code(0x4B) == Ok::<VendorStatus, BadStatusError>(VendorStatus::FlashEraseFailed),
        vendor_status_from_code(0x50) == Ok::<VendorStatus, BadStatusError>(VendorStatus::InvalidCid),
        vendor_status_from_code(0x54) == Ok::<VendorStatus, BadStatusError>(VendorStatus::TimerNotValidLayer),
        vendor_status_from_code(0x55) == Ok::<VendorStatus, BadStatusError>(VendorStatus::TimerInsufficientResources),
        vendor_status_from_code(0x5A) == Ok::<VendorStatus, BadStatusError>(VendorStatus::CsrkNotFound),
        vendor_status_from_code(0x5B) == Ok::<VendorStatus, BadStatusError>(VendorStatus::IrkNotFound),
        vendor_status_from_code(0x5C) == Ok::<VendorStatus, BadStatusError>(VendorStatus::DeviceNotFoundInDatabase),
        vendor_status_from_code(0x5D) == Ok::<VendorStatus, BadStatusError>(VendorStatus::SecurityDatabaseFull),
        vendor_status_from_code(0x5E) == Ok::<VendorStatus, BadStatusError>(VendorStatus::DeviceNotBonded),
        vendor_status_from_code(0x5F) == Ok::<VendorStatus, BadStatusError>(VendorStatus::DeviceInBlacklist),
        vendor_status_from_code(0x60) == Ok::<VendorStatus, BadStatusError>(VendorStatus::InvalidHandle),
        vendor_status_from_code(0x61) == Ok::<VendorStatus, BadStatusError>(VendorStatus::InvalidParameter),
        vendor_status_from_code(0x62) == Ok::<VendorStatus, BadStatusError>(VendorStatus::OutOfHandle),
        vendor_status_from_code(0x63) == Ok::<VendorStatus, BadStatusError>(VendorStatus::InvalidOperation),
        vendor_status_from_code(0x64) == Ok::<VendorStatus, BadStatusError>(VendorStatus::InsufficientResources),
        vendor_status_from_code(0x65) == Ok::<VendorStatus, BadStatusError>(VendorStatus::InsufficientEncryptionKeySize),
        vendor_status_from_code(0x66) == Ok::<VendorStatus, BadStatusError>(VendorStatus::CharacteristicAlreadyExists),
        vendor_status_from_code(0x82) == Ok::<VendorStatus, BadStatusError>(VendorStatus::NoValidSlot),
        vendor_status_from_code(0x83) == Ok::<VendorStatus, BadStatusError>(VendorStatus::ScanWindowTooShort),
        vendor_status_from_code(0x84) == Ok::<VendorStatus, BadStatusError>(VendorStatus::NewIntervalFailed),
        vendor_status_from_code(0x85) == Ok::<VendorStatus, BadStatusError>(VendorStatus::IntervalTooLarge),
        vendor_status_from_code(0x86) == Ok::<VendorStatus, BadStatusError>(VendorStatus::LengthFailed),
        vendor_status_from_code(0xFF) == Ok::<VendorStatus, BadStatusError>(VendorStatus::Timeout),
        vendor_status_from_code(0xF0) == Ok::<VendorStatus, BadStatusError>(VendorStatus::ProfileAlreadyInitialized),
        vendor_status_from_code(0xF1) == Ok::<VendorStatus, BadStatusError>(VendorStatus::NullParameter),
{
    lemma_vendor_status_code_round_trip(VendorStatus::Failed);
    lemma_vendor_status_code_round_trip(VendorStatus::InvalidParameters);
    lemma_vendor_status_code_round_trip(VendorStatus::NotAllowed);
    lemma_vendor_status_code_round_trip(VendorStatus::Error);
    lemma_vendor_status_code_round_trip(VendorStatus::AddressNotResolved);
    lemma_vendor_status_code_round_trip(VendorStatus::FlashReadFailed);
    lemma_vendor_status_code_round_trip(VendorStatus::FlashWriteFailed);
    lemma_vendor_status_code_round_trip(VendorStatus::FlashEraseFailed);
    lemma_vendor_status_code_round_trip(VendorStatus::InvalidCid);
    lemma_vendor_status_code_round_trip(VendorStatus::TimerNotValidLayer);
    lemma_vendor_status_code_round_trip(VendorStatus::TimerInsufficientResources);
    lemma_vendor_status_code_round_trip(VendorStatus::CsrkNotFound);
    lemma_vendor_status_code_round_trip(VendorStatus::IrkNotFound);
    lemma_vendor_status_code_round_trip(VendorStatus::DeviceNotFoundInDatabase);
    lemma_vendor_status_code_round_trip(VendorStatus::SecurityDatabaseFull);
    lemma_vendor_status_code_round_trip(VendorStatus::DeviceNotBonded);
    lemma_vendor_status_code_round_trip(VendorStatus::DeviceInBlacklist);
    lemma_vendor_status_code_round_trip(VendorStatus::InvalidHandle);
    lemma_vendor_status_code_round_trip(VendorStatus::InvalidParameter);
    lemma_vendor_status_code_round_trip(VendorStatus::OutOfHandle);
    lemma_vendor_status_code_round_trip(VendorStatus::InvalidOperation);
    lemma_vendor_status_code_round_trip(VendorStatus::InsufficientResources);
    lemma_vendor_status_code_round_trip(VendorStatus::InsufficientEncryptionKeySize);
    lemma_vendor_status_code_round_trip(VendorStatus::CharacteristicAlreadyExists);
    lemma_vendor_status_code_round_trip(VendorStatus::NoValidSlot);
    lemma_vendor_status_code_round_trip(VendorStatus::ScanWindowTooShort);
    lemma_vendor_status_code_round_trip(VendorStatus::NewIntervalFailed);
    lemma_vendor_status_code_round_trip(VendorStatus::IntervalTooLarge);
    lemma_vendor_status_code_round_trip(VendorStatus::LengthFailed);
    lemma_vendor_status_code_round_trip(VendorStatus::Timeout);
    lemma_vendor_status_code_round_trip(VendorStatus::ProfileAlreadyInitialized);
    lemma_vendor_status_code_round_trip(VendorStatus::NullParameter);
}

impl core::convert::TryFrom<u8> for VendorStatus {
    type Error = BadStatusError;

    fn try_from(value: u8) -> (ret: Result<VendorStatus, BadStatusError>) {
        let res = match value {
            0x41 => Ok(VendorStatus::Failed),
            0x42 => Ok(VendorStatus::InvalidParameters),
            0x46 => Ok(VendorStatus::NotAllowed),
            0x47 => Ok(VendorStatus::Error),
            0x48 => Ok(VendorStatus::AddressNotResolved),
            0x49 => Ok(VendorStatus::FlashReadFailed),
            0x4A => Ok(VendorStatus::FlashWriteFailed),
            0x4B => Ok(VendorStatus::FlashEraseFailed),
            0x50 => Ok(VendorStatus::InvalidCid),
            0x54 => Ok(VendorStatus::TimerNotValidLayer),
            0x55 => Ok(VendorStatus::TimerInsufficientResources),
            0x5A => Ok(VendorStatus::CsrkNotFound),
            0x5B => Ok(VendorStatus::IrkNotFound),
            0x5C => Ok(VendorStatus::DeviceNotFoundInDatabase),
            0x5D => Ok(VendorStatus::SecurityDatabaseFull),
            0x5E => Ok(VendorStatus::DeviceNotBonded),
            0x5F => Ok(VendorStatus::DeviceInBlacklist),
            0x60 => Ok(VendorStatus::InvalidHandle),
            0x61 => Ok(VendorStatus::InvalidParameter),
            0x62 => Ok(VendorStatus::OutOfHandle),
            0x63 => Ok(VendorStatus::InvalidOperation),
            0x64 => Ok(VendorStatus::InsufficientResources),
            0x65 => Ok(VendorStatus::InsufficientEncryptionKeySize),
            0x66 => Ok(VendorStatus::CharacteristicAlreadyExists),
            0x82 => Ok(VendorStatus::NoValidSlot),
            0x83 => Ok(VendorStatus::ScanWindowTooShort),
            0x84 => Ok(VendorStatus::NewIntervalFailed),
            0x85 => Ok(VendorStatus::IntervalTooLarge),
            0x86 => Ok(VendorStatus::LengthFailed),
            0xFF => Ok(VendorStatus::Timeout),
            0xF0 => Ok(VendorStatus::ProfileAlreadyInitialized),
            0xF1 => Ok(VendorStatus::NullParameter),
            _ => Err(BadStatusError::BadValue(value)),
        };
        proof {
            match res {
                Ok(v) => {
                    assert(vendor_status_code(v) == value);
                    let w = choose|w: VendorStatus| #[trigger] vendor_status_code(w) == value;
                    lemma_vendor_status_code_injective(v, w);
                },
                Err(_) => {
                    assert forall|w: VendorStatus| #[trigger] vendor_status_code(w) != value by {}
                },
            }
        }
        res
    }
}

impl vstd::std_specs::convert::TryFromSpecImpl<u8> for VendorStatus {
    open spec fn obeys_try_from_spec() -> bool {
        true
    }

    open spec fn try_from_spec(v: u8) -> Result<Self, BadStatusError> {
        vendor_status_from_code(v)
    }
}

impl core::convert::From<VendorStatus> for u8 {
    fn from(val: VendorStatus) -> (ret: u8) {
        match val {
            VendorStatus::Failed => 0x41,
            VendorStatus::InvalidParameters => 0x42,
            VendorStatus::NotAllowed => 0x46,
            VendorStatus::Error => 0x47,
            VendorStatus::AddressNotResolved => 0x48,
            VendorStatus::FlashReadFailed => 0x49,
            VendorStatus::FlashWriteFailed => 0x4A,
            VendorStatus::FlashEraseFailed => 0x4B,
            VendorStatus::InvalidCid => 0x50,
            VendorStatus::TimerNotValidLayer => 0x54,
            VendorStatus::TimerInsufficientResources => 0x55,
            VendorStatus::CsrkNotFound => 0x5A,
            VendorStatus::IrkNotFound => 0x5B,
            VendorStatus::DeviceNotFoundInDatabase => 0x5C,
            VendorStatus::SecurityDatabaseFull => 0x5D,
            VendorStatus::DeviceNotBonded => 0x5E,
            VendorStatus::DeviceInBlacklist => 0x5F,
            VendorStatus::InvalidHandle => 0x60,
            VendorStatus::InvalidParameter => 0x61,
            VendorStatus::OutOfHandle => 0x62,
            VendorStatus::InvalidOperation => 0x63,
            VendorStatus::InsufficientResources => 0x64,
            VendorStatus::InsufficientEncryptionKeySize => 0x65,
            VendorStatus::CharacteristicAlreadyExists => 0x66,
            VendorStatus::NoValidSlot => 0x82,
            VendorStatus::ScanWindowTooShort => 0x83,
            VendorStatus::NewIntervalFailed => 0x84,
            VendorStatus::IntervalTooLarge => 0x85,
            VendorStatus::LengthFailed => 0x86,
            VendorStatus::Timeout => 0xFF,
            VendorStatus::ProfileAlreadyInitialized => 0xF0,
            VendorStatus::NullParameter => 0xF1,
        }
    }
}

impl vstd::std_specs::convert::FromSpecImpl<VendorStatus> for u8 {
    open spec fn obeys_from_spec() -> bool {
        true
    }

    open spec fn from_spec(v: VendorStatus) -> u8 {
        vendor_status_code(v)
    }
}

} // verus!
