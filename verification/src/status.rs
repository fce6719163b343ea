//! Status codes of the host controller interface.
use vstd::prelude::*;

use crate::vendor::event::{
    is_vendor_status_code, lemma_vendor_status_code_round_trip,
    lemma_vendor_status_from_code_encodes, vendor_status_code, vendor_status_from_code,
    VendorStatus,
};

verus! {

/// List of possible error codes, Bluetooth Spec, Vol 2, Part D, Section 2.
///
/// Includes an extension point for vendor-specific status codes.
#[derive(Copy, Clone, Debug, PartialEq, Eq)]
pub enum Status {
    /// Success
    Success,
    /// Unknown HCI Command
    UnknownCommand,
    /// Unknown Connection Identifier
    UnknownConnectionId,
    /// Hardware Failure
    HardwareFailure,
    /// Page Timeout
    PageTimeout,
    /// Authentication Failure
    AuthFailure,
    /// PIN or Key Missing
    PinOrKeyMissing,
    /// Memory Capacity Exceeded
    OutOfMemory,
    /// Connection Timeout
    ConnectionTimeout,
    /// Connection Limit Exceeded
    ConnectionLimitExceeeded,
    /// Synchronous Connection Limit To A Device Exceeded
    SyncConnectionLimitExceeded,
    /// Connection Already Exists
    ConnectionAlreadyExists,
    /// Command Disallowed
    CommandDisallowed,
    /// Connection Rejected due to Limited Resources
    LimitedResources,
    /// Connection Rejected Due To Security Reasons
    ConnectionRejectedSecurity,
    /// Connection Rejected due to Unacceptable BD_ADDR
    UnacceptableBdAddr,
    /// Connection Accept Timeout Exceeded
    AcceptTimeoutExceeded,
    /// Unsupported Feature or Parameter Value
    UnsupportedFeature,
    /// Invalid HCI Command Parameters
    InvalidParameters,
    /// Remote User Terminated Connection
    RemoteTerminationByUser,
    /// Remote Device Terminated Connection due to Low Resources
    RemoteTerminationLowResources,
    /// Remote Device Terminated Connection due to Power Off
    RemoteTerminationPowerOff,
    /// Connection Terminated By Local Host
    ConnectionTerminatedByHost,
    /// Repeated Attempts
    RepeatedAttempts,
    /// Pairing Not Allowed
    PairingNotAllowed,
    /// Unknown LMP PDU
    UnknownLmpPdu,
    /// Unsupported Remote Feature / Unsupported LMP Feature
    UnsupportedRemoteFeature,
    /// SCO Offset Rejected
    ScoOffsetRejected,
    /// SCO Interval Rejected
    ScoIntervalRejected,
    /// SCO Air Mode Rejected
    ScoAirModeRejected,
    /// Invalid LMP Parameters / Invalid LL Parameters
    InvalidLmpParameters,
    /// Unspecified Error
    UnspecifiedError,
    /// Unsupported LMP Parameter Value / Unsupported LL Parameter Value
    UnsupportedLmpParameterValue,
    /// Role Change Not Allowed
    RoleChangeNotAllowed,
    /// LMP Response Timeout / LL Response Timeout
    LmpResponseTimeout,
    /// LMP Error Transaction Collision / LL Procedure Collision
    LmpTransactionCollision,
    /// LMP PDU Not Allowed
    LmpPduNotAllowed,
    /// Encryption Mode Not Acceptable
    EncryptionModeNotAcceptable,
    /// Link Key cannot be Changed
    LinkKeyCannotBeChanged,
    /// Requested QoS Not Supported
    RequestedQosNotSupported,
    /// Instant Passed
    InstantPassed,
    /// Pairing With Unit Key Not Supported
    PairingWithUnitKeyNotSupported,
    /// Different Transaction Collision
    DifferentTransactionCollision,
    /// Reserved for Future Use
    ReservedforFutureUse,
    /// QoS Unacceptable Parameter
    QosUnacceptableParameter,
    /// QoS Rejected
    QosRejected,
    /// Channel Classification Not Supported
    ChannelClassificationNotSupported,
    /// Insufficient Security
    InsufficientSecurity,
    /// Parameter Out Of Mandatory Range
    ParameterOutOfMandatoryRange,
    /// Reserved for Future Use
    ReservedForFutureUse49,
    /// Role Switch Pending
    RoleSwitchPending,
    /// Reserved for Future Use
    ReservedForFutureUse51,
    /// Reserved Slot Violation
    ReservedSlotViolation,
    /// Role Switch Failed
    RoleSwitchFailed,
    /// Extended Inquiry Response Too Large
    ExtendedInquiryResponseTooLarge,
    /// Secure Simple Pairing Not Supported By Host
    SecureSimplePairingNotSupportedByHost,
    /// Host Busy - Pairing
    HostBusyPairing,
    /// Connection Rejected due to No Suitable Channel Found
    ConnectionRejectedNoSuitableChannel,
    /// Controller Busy
    ControllerBusy,
    /// Unacceptable Connection Parameters
    UnacceptableConnectionParameters,
    /// Advertising Timeout
    AdvertisingTimeout,
    /// Connection Terminated due to MIC Failure
    ConnectionTerminatedMicFailure,
    /// Connection Failed to be Established
    ConnectionFailedToEstablish,
    /// MAC Connection Failed
    MacConnectionFailed,
    /// Coarse Clock Adjustment Rejected but Will Try to Adjust Using Clock Dragging
    CoarseClockAdjustmentRejectedDraggingAttempted,
    /// Type0 Submap Not Defined
    ///
    /// First introduced in version 5.0
    Type0SubmapNotDefined,
    /// Unknown Advertising Identifier
    ///
    /// First introduced in version 5.0
    UnknownAdvertisingId,
    /// Limit Reached
    ///
    /// First introduced in version 5.0
    LimitReached,
    /// Operation Cancelled by Host
    ///
    /// First introduced in version 5.0
    OperationCancelledByHost,
    /// Vendor-specific status code
    Vendor(VendorStatus),
}

/// Wrapper enum for errors converting a u8 into a [`Status`].
#[derive(Copy, Clone, Debug, PartialEq, Eq)]
pub enum BadStatusError {
    /// The value does not map to a [`Status`].
    BadValue(u8),
}

/// The byte that encodes a status.
pub open spec fn status_code(s: Status) -> u8 {
    match s {
        Status::Success => 0x00,
        Status::UnknownCommand => 0x01,
        Status::UnknownConnectionId => 0x02,
        Status::HardwareFailure => 0x03,
        Status::PageTimeout => 0x04,
        Status::AuthFailure => 0x05,
        Status::PinOrKeyMissing => 0x06,
        Status::OutOfMemory => 0x07,
        Status::ConnectionTimeout => 0x08,
        Status::ConnectionLimitExceeeded => 0x09,
        Status::SyncConnectionLimitExceeded => 0x0A,
        Status::ConnectionAlreadyExists => 0x0B,
        Status::CommandDisallowed => 0x0C,
        Status::LimitedResources => 0x0D,
        Status::ConnectionRejectedSecurity => 0x0E,
        Status::UnacceptableBdAddr => 0x0F,
        Status::AcceptTimeoutExceeded => 0x10,
        Status::UnsupportedFeature => 0x11,
        Status::InvalidParameters => 0x12,
        Status::RemoteTerminationByUser => 0x13,
        Status::RemoteTerminationLowResources => 0x14,
        Status::RemoteTerminationPowerOff => 0x15,
        Status::ConnectionTerminatedByHost => 0x16,
        Status::RepeatedAttempts => 0x17,
        Status::PairingNotAllowed => 0x18,
        Status::UnknownLmpPdu => 0x19,
        Status::UnsupportedRemoteFeature => 0x1A,
        Status::ScoOffsetRejected => 0x1B,
        Status::ScoIntervalRejected => 0x1C,
        Status::ScoAirModeRejected => 0x1D,
        Status::InvalidLmpParameters => 0x1E,
        Status::UnspecifiedError => 0x1F,
        Status::UnsupportedLmpParameterValue => 0x20,
        Status::RoleChangeNotAllowed => 0x21,
        Status::LmpResponseTimeout => 0x22,
        Status::LmpTransactionCollision => 0x23,
        Status::LmpPduNotAllowed => 0x24,
        Status::EncryptionModeNotAcceptable => 0x25,
        Status::LinkKeyCannotBeChanged => 0x26,
        Status::RequestedQosNotSupported => 0x27,
        Status::InstantPassed => 0x28,
        Status::PairingWithUnitKeyNotSupported => 0x29,
        Status::DifferentTransactionCollision => 0x2A,
        Status::ReservedforFutureUse => 0x2B,
        Status::QosUnacceptableParameter => 0x2C,
        Status::QosRejected => 0x2D,
        Status::ChannelClassificationNotSupported => 0x2E,
        Status::InsufficientSecurity => 0x2F,
        Status::ParameterOutOfMandatoryRange => 0x30,
        Status::ReservedForFutureUse49 => 0x31,
        Status::RoleSwitchPending => 0x32,
        Status::ReservedForFutureUse51 => 0x33,
        Status::ReservedSlotViolation => 0x34,
        Status::RoleSwitchFailed => 0x35,
        Status::ExtendedInquiryResponseTooLarge => 0x36,
        Status::SecureSimplePairingNotSupportedByHost => 0x37,
        Status::HostBusyPairing => 0x38,
        Status::ConnectionRejectedNoSuitableChannel => 0x39,
        Status::ControllerBusy => 0x3A,
        Status::UnacceptableConnectionParameters => 0x3B,
        Status::AdvertisingTimeout => 0x3C,
        Status::ConnectionTerminatedMicFailure => 0x3D,
        Status::ConnectionFailedToEstablish => 0x3E,
        Status::MacConnectionFailed => 0x3F,
        Status::CoarseClockAdjustmentRejectedDraggingAttempted => 0x40,
        Status::Type0SubmapNotDefined => 0x41,
        Status::UnknownAdvertisingId => 0x42,
        Status::LimitReached => 0x43,
        Status::OperationCancelledByHost => 0x44,
        Status::Vendor(v) => vendor_status_code(v),
    }
}

/// Whether the byte encodes one of the statuses of the Bluetooth specification itself.
pub open spec fn is_standard_status_code(b: u8) -> bool {
    exists|s: Status| s !is Vendor && #[trigger] status_code(s) == b
}

/// The status that a byte encodes. A code of the specification is read as such, even where a
/// vendor-specific status has the same code; any other byte is read as a vendor-specific status,
/// and a byte that is neither is handed back as the error.
pub open spec fn status_from_code(b: u8) -> Result<Status, BadStatusError> {
    if is_standard_status_code(b) {
        Ok(choose|s: Status| s !is Vendor && #[trigger] status_code(s) == b)
    } else {
        match vendor_status_from_code(b) {
            Ok(v) => Ok(Status::Vendor(v)),
            Err(e) => Err(e),
        }
    }
}

/// No two statuses of the specification share a code.
pub proof fn lemma_standard_status_code_injective(s1: Status, s2: Status)
    requires
        s1 !is Vendor,
        s2 !is Vendor,
        status_code(s1) == status_code(s2),
    ensures
        s1 == s2,
{
}

/// The codes of the specification's own statuses are exactly the bytes up to 0x44.
pub proof fn lemma_standard_status_codes(b: u8)
    ensures
        is_standard_status_code(b) <==> b <= 0x44,
{
    if b <= 0x44 {
        match b {
            0x00 => assert(status_code(Status::Success) == b),
            0x01 => assert(status_code(Status::UnknownCommand) == b),
            0x02 => assert(status_code(Status::UnknownConnectionId) == b),
            0x03 => assert(status_code(Status::HardwareFailure) == b),
            0x04 => assert(status_code(Status::PageTimeout) == b),
            0x05 => assert(status_code(Status::AuthFailure) == b),
            0x06 => assert(status_code(Status::PinOrKeyMissing) == b),
            0x07 => assert(status_code(Status::OutOfMemory) == b),
            0x08 => assert(status_code(Status::ConnectionTimeout) == b),
            0x09 => assert(status_code(Status::ConnectionLimitExceeeded) == b),
            0x0A => assert(status_code(Status::SyncConnectionLimitExceeded) == b),
            0x0B => assert(status_code(Status::ConnectionAlreadyExists) == b),
            0x0C => assert(status_code(Status::CommandDisallowed) == b),
            0x0D => assert(status_code(Status::LimitedResources) == b),
            0x0E => assert(status_code(Status::ConnectionRejectedSecurity) == b),
            0x0F => assert(status_code(Status::UnacceptableBdAddr) == b),
            0x10 => assert(status_code(Status::AcceptTimeoutExceeded) == b),
            0x11 => assert(status_code(Status::UnsupportedFeature) == b),
            0x12 => assert(status_code(Status::InvalidParameters) == b),
            0x13 => assert(status_code(Status::RemoteTerminationByUser) == b),
            0x14 => assert(status_code(Status::RemoteTerminationLowResources) == b),
            0x15 => assert(status_code(Status::RemoteTerminationPowerOff) == b),
            0x16 => assert(status_code(Status::ConnectionTerminatedByHost) == b),
            0x17 => assert(status_code(Status::RepeatedAttempts) == b),
            0x18 => assert(status_code(Status::PairingNotAllowed) == b),
            0x19 => assert(status_code(Status::UnknownLmpPdu) == b),
            0x1A => assert(status_code(Status::UnsupportedRemoteFeature) == b),
            0x1B => assert(status_code(Status::ScoOffsetRejected) == b),
            0x1C => assert(status_code(Status::ScoIntervalRejected) == b),
            0x1D => assert(status_code(Status::ScoAirModeRejected) == b),
            0x1E => assert(status_code(Status::InvalidLmpParameters) == b),
            0x1F => assert(status_code(Status::UnspecifiedError) == b),
            0x20 => assert(status_code(Status::UnsupportedLmpParameterValue) == b),
            0x21 => assert(status_code(Status::RoleChangeNotAllowed) == b),
            0x22 => assert(status_code(Status::LmpResponseTimeout) == b),
            0x23 => assert(status_code(Status::LmpTransactionCollision) == b),
            0x24 => assert(status_code(Status::LmpPduNotAllowed) == b),
            0x25 => assert(status_code(Status::EncryptionModeNotAcceptable) == b),
            0x26 => assert(status_code(Status::LinkKeyCannotBeChanged) == b),
            0x27 => assert(status_code(Status::RequestedQosNotSupported) == b),
            0x28 => assert(status_code(Status::InstantPassed) == b),
            0x29 => assert(status_code(Status::PairingWithUnitKeyNotSupported) == b),
            0x2A => assert(status_code(Status::DifferentTransactionCollision) == b),
            0x2B => assert(status_code(Status::ReservedforFutureUse) == b),
            0x2C => assert(status_code(Status::QosUnacceptableParameter) == b),
            0x2D => assert(status_code(Status::QosRejected) == b),
            0x2E => assert(status_code(Status::ChannelClassificationNotSupported) == b),
            0x2F => assert(status_code(Status::InsufficientSecurity) == b),
            0x30 => assert(status_code(Status::ParameterOutOfMandatoryRange) == b),
            0x31 => assert(status_code(Status::ReservedForFutureUse49) == b),
            0x32 => assert(status_code(Status::RoleSwitchPending) == b),
            0x33 => assert(status_code(Status::ReservedForFutureUse51) == b),
            0x34 => assert(status_code(Status::ReservedSlotViolation) == b),
            0x35 => assert(status_code(Status::RoleSwitchFailed) == b),
            0x36 => assert(status_code(Status::ExtendedInquiryResponseTooLarge) == b),
            0x37 => assert(status_code(Status::SecureSimplePairingNotSupportedByHost) == b),
            0x38 => assert(status_code(Status::HostBusyPairing) == b),
            0x39 => assert(status_code(Status::ConnectionRejectedNoSuitableChannel) == b),
            0x3A => assert(status_code(Status::ControllerBusy) == b),
            0x3B => assert(status_code(Status::UnacceptableConnectionParameters) == b),
            0x3C => assert(status_code(Status::AdvertisingTimeout) == b),
            0x3D => assert(status_code(Status::ConnectionTerminatedMicFailure) == b),
            0x3E => assert(status_code(Status::ConnectionFailedToEstablish) == b),
            0x3F => assert(status_code(Status::MacConnectionFailed) == b),
            0x40 => assert(status_code(Status::CoarseClockAdjustmentRejectedDraggingAttempted) == b),
            0x41 => assert(status_code(Status::Type0SubmapNotDefined) == b),
            0x42 => assert(status_code(Status::UnknownAdvertisingId) == b),
            0x43 => assert(status_code(Status::LimitReached) == b),
            0x44 => assert(status_code(Status::OperationCancelledByHost) == b),
            _ => {},
        }
    } else {
        assert forall|w: Status| w !is Vendor implies #[trigger] status_code(w) != b by {}
    }
}

/// A byte that is read as a status is that status's code: reading a byte and writing the result
/// gives the byte back.
pub proof fn lemma_status_from_code_encodes(b: u8)
    ensures
        status_from_code(b) matches Ok(s) ==> status_code(s) == b,
{
    if is_standard_status_code(b) {
    } else {
        lemma_vendor_status_from_code_encodes(b);
    }
}

/// A byte is refused exactly when it is neither a code of the specification nor a
/// vendor-specific code, and the error then holds the byte.
pub proof fn lemma_status_from_code_refuses(b: u8)
    ensures
        status_from_code(b) is Err <==> (!is_standard_status_code(b) && !is_vendor_status_code(b)),
        status_from_code(b) matches Err(e) ==> e == BadStatusError::BadValue(b),
{
}

/// Writing a status and reading the byte back gives the status, for every status but a
/// vendor-specific one whose code is also a code of the specification (that byte is read as the
/// specification's status).
pub proof fn lemma_status_code_round_trip(s: Status)
    requires
        s matches Status::Vendor(v) ==> !is_standard_status_code(vendor_status_code(v)),
    ensures
        status_from_code(status_code(s)) == Ok::<Status, BadStatusError>(s),
{
    let b = status_code(s);
    match s {
        Status::Vendor(v) => {
            lemma_vendor_status_code_round_trip(v);
        },
        _ => {
            assert(is_standard_status_code(b));
            let w = choose|w: Status| w !is Vendor && #[trigger] status_code(w) == b;
            lemma_standard_status_code_injective(s, w);
        },
    }
}

/// The codes of the Bluetooth specification (Vol 2, Part D, Section 2), byte by byte: each
/// status of the specification is written as its assigned byte.
pub proof fn lemma_status_code_table()
    ensures
        status_code(Status::Success) == 0x00,
        status_code(Status::UnknownCommand) == 0x01,
        status_code(Status::UnknownConnectionId) == 0x02,
        status_code(Status::HardwareFailure) == 0x03,
        status_code(Status::PageTimeout) == 0x04,
        status_code(Status::AuthFailure) == 0x05,
        status_code(Status::PinOrKeyMissing) == 0x06,
        status_code(Status::OutOfMemory) == 0x07,
        status_code(Status::ConnectionTimeout) == 0x08,
        status_code(Status::ConnectionLimitExceeeded) == 0x09,
        status_code(Status::SyncConnectionLimitExceeded) == 0x0A,
        status_code(Status::ConnectionAlreadyExists) == 0x0B,
        status_code(Status::CommandDisallowed) == 0x0C,
        status_code(Status::LimitedResources) == 0x0D,
        status_code(Status::ConnectionRejectedSecurity) == 0x0E,
        status_code(Status::UnacceptableBdAddr) == 0x0F,
        status_code(Status::AcceptTimeoutExceeded) == 0x10,
        status_code(Status::UnsupportedFeature) == 0x11,
        status_code(Status::InvalidParameters) == 0x12,
        status_code(Status::RemoteTerminationByUser) == 0x13,
        status_code(Status::RemoteTerminationLowResources) == 0x14,
        status_code(Status::RemoteTerminationPowerOff) == 0x15,
        status_code(Status::ConnectionTerminatedByHost) == 0x16,
        status_code(Status::RepeatedAttempts) == 0x17,
        status_code(Status::PairingNotAllowed) == 0x18,
        status_code(Status::UnknownLmpPdu) == 0x19,
        status_code(Status::UnsupportedRemoteFeature) == 0x1A,
        status_code(Status::ScoOffsetRejected) == 0x1B,
        status_code(Status::ScoIntervalRejected) == 0x1C,
        status_code(Status::ScoAirModeRejected) == 0x1D,
        status_code(Status::InvalidLmpParameters) == 0x1E,
        status_code(Status::UnspecifiedError) == 0x1F,
        status_code(Status::UnsupportedLmpParameterValue) == 0x20,
        status_code(Status::RoleChangeNotAllowed) == 0x21,
        status_code(Status::LmpResponseTimeout) == 0x22,
        status_code(Status::LmpTransactionCollision) == 0x23,
        status_code(Status::LmpPduNotAllowed) == 0x24,
        status_code(Status::EncryptionModeNotAcceptable) == 0x25,
        status_code(Status::LinkKeyCannotBeChanged) == 0x26,
        status_code(Status::RequestedQosNotSupported) == 0x27,
        status_code(Status::InstantPassed) == 0x28,
        status_code(Status::PairingWithUnitKeyNotSupported) == 0x29,
        status_code(Status::DifferentTransactionCollision) == 0x2A,
        status_code(Status::ReservedforFutureUse) == 0x2B,
        status_code(Status::QosUnacceptableParameter) == 0x2C,
        status_code(Status::QosRejected) == 0x2D,
        status_code(Status::ChannelClassificationNotSupported) == 0x2E,
        status_code(Status::InsufficientSecurity) == 0x2F,
        status_code(Status::ParameterOutOfMandatoryRange) == 0x30,
        status_code(Status::ReservedForFutureUse49) == 0x31,
        status_code(Status::RoleSwitchPending) == 0x32,
        status_code(Status::ReservedForFutureUse51) == 0x33,
        status_code(Status::ReservedSlotViolation) == 0x34,
        status_code(Status::RoleSwitchFailed) == 0x35,
        status_code(Status::ExtendedInquiryResponseTooLarge) == 0x36,
        status_code(Status::SecureSimplePairingNotSupportedByHost) == 0x37,
        status_code(Status::HostBusyPairing) == 0x38,
        status_code(Status::ConnectionRejectedNoSuitableChannel) == 0x39,
        status_code(Status::ControllerBusy) == 0x3A,
        status_code(Status::UnacceptableConnectionParameters) == 0x3B,
        status_code(Status::AdvertisingTimeout) == 0x3C,
        status_code(Status::ConnectionTerminatedMicFailure) == 0x3D,
        status_code(Status::ConnectionFailedToEstablish) == 0x3E,
        status_code(Status::MacConnectionFailed) == 0x3F,
        status_code(Status::CoarseClockAdjustmentRejectedDraggingAttempted) == 0x40,
        status_code(Status::Type0SubmapNotDefined) == 0x41,
        status_code(Status::UnknownAdvertisingId) == 0x42,
        status_code(Status::LimitReached) == 0x43,
        status_code(Status::OperationCancelledByHost) == 0x44,
{
}

/// The codes of the Bluetooth specification, byte by byte: each byte up to 0x44 is read as the
/// status that the specification assigns to it.
#[verifier::rlimit(50)]
pub proof fn lemma_status_from_code_table()
    ensures
        status_from_code(0x00) == Ok::<Status, BadStatusError>(Status::Success),
        status_from_code(0x01) == Ok::<Status, BadStatusError>(Status::UnknownCommand),
        status_from_code(0x02) == Ok::<Status, BadStatusError>(Status::UnknownConnectionId),
        status_from_code(0x03) == Ok::<Status, BadStatusError>(Status::HardwareFailure),
        status_from_code(0x04) == Ok::<Status, BadStatusError>(Status::PageTimeout),
        status_from_code(0x05) == Ok::<Status, BadStatusError>(Status::AuthFailure),
        status_from_code(0x06) == Ok::<Status, BadStatusError>(Status::PinOrKeyMissing),
        status_from_code(0x07) == Ok::<Status, BadStatusError>(Status::OutOfMemory),
        status_from_code(0x08) == Ok::<Status, BadStatusError>(Status::ConnectionTimeout),
        status_from_code(0x09) == Ok::<Status, BadStatusError>(Status::ConnectionLimitExceeeded),
        status_from_code(0x0A) == Ok::<Status, BadStatusError>(Status::SyncConnectionLimitExceeded),
        status_from_code(0x0B) == Ok::<Status, BadStatusError>(Status::ConnectionAlreadyExists),
        status_from_code(0x0C) == Ok::<Status, BadStatusError>(Status::CommandDisallowed),
        status_from_code(0x0D) == Ok::<Status, BadStatusError>(Status::LimitedResources),
        status_from_code(0x0E) == Ok::<Status, BadStatusError>(Status::ConnectionRejectedSecurity),
        status_from_code(0x0F) == Ok::<Status, BadStatusError>(Status::UnacceptableBdAddr),
        status_from_code(0x10) == Ok::<Status, BadStatusError>(Status::AcceptTimeoutExceeded),
        status_from_code(0x11) == Ok::<Status, BadStatusError>(Status::UnsupportedFeature),
        status_from_code(0x12) == Ok::<Status, BadStatusError>(Status::InvalidParameters),
        status_from_code(0x13) == Ok::<Status, BadStatusError>(Status::RemoteTerminationByUser),
        status_from_code(0x14) == Ok::<Status, BadStatusError>(Status::RemoteTerminationLowResources),
        status_from_code(0x15) == Ok::<Status, BadStatusError>(Status::RemoteTerminationPowerOff),
        status_from_code(0x16) == Ok::<Status, BadStatusError>(Status::ConnectionTerminatedByHost),
        status_from_code(0x17) == Ok::<Status, BadStatusError>(Status::RepeatedAttempts),
        status_from_code(0x18) == Ok::<Status, BadStatusError>(Status::PairingNotAllowed),
        status_from_code(0x19) == Ok::<Status, BadStatusError>(Status::UnknownLmpPdu),
        status_from_code(0x1A) == Ok::<Status, BadStatusError>(Status::UnsupportedRemoteFeature),
        status_from_code(0x1B) == Ok::<Status, BadStatusError>(Status::ScoOffsetRejected),
        status_from_code(0x1C) == Ok::<Status, BadStatusError>(Status::ScoIntervalRejected),
        status_from_code(0x1D) == Ok::<Status, BadStatusError>(Status::ScoAirModeRejected),
        status_from_code(0x1E) == Ok::<Status, BadStatusError>(Status::InvalidLmpParameters),
        status_from_code(0x1F) == Ok::<Status, BadStatusError>(Status::UnspecifiedError),
        status_from_code(0x20) == Ok::<Status, BadStatusError>(Status::UnsupportedLmpParameterValue),
        status_from_code(0x21) == Ok::<Status, BadStatusError>(Status::RoleChangeNotAllowed),
        status_from_code(0x22) == Ok::<Status, BadStatusError>(Status::LmpResponseTimeout),
        status_from_code(0x23) == Ok::<Status, BadStatusError>(Status::LmpTransactionCollision),
        status_from_code(0x24) == Ok::<Status, BadStatusError>(Status::LmpPduNotAllowed),
        status_from_code(0x25) == Ok::<Status, BadStatusError>(Status::EncryptionModeNotAcceptable),
        status_from_code(0x26) == Ok::<Status, BadStatusError>(Status::LinkKeyCannotBeChanged),
        status_from_code(0x27) == Ok::<Status, BadStatusError>(Status::RequestedQosNotSupported),
        status_from_code(0x28) == Ok::<Status, BadStatusError>(Status::InstantPassed),
        status_from_code(0x29) == Ok::<Status, BadStatusError>(Status::PairingWithUnitKeyNotSupported),
        status_from_code(0x2A) == Ok::<Status, BadStatusError>(Status::DifferentTransactionCollision),
        status_from_code(0x2B) == Ok::<Status, BadStatusError>(Status::ReservedforFutureUse),
        status_from_code(0x2C) == Ok::<Status, BadStatusError>(Status::QosUnacceptableParameter),
        status_from_code(0x2D) == Ok::<Status, BadStatusError>(Status::QosRejected),
        status_from_code(0x2E) == Ok::<Status, BadStatusError>(Status::ChannelClassificationNotSupported),
        status_from_code(0x2F) == Ok::<Status, BadStatusError>(Status::InsufficientSecurity),
        status_from_code(0x30) == Ok::<Status, BadStatusError>(Status::ParameterOutOfMandatoryRange),
        status_from_code(0x31) == Ok::<Status, BadStatusError>(Status::ReservedForFutureUse49),
        status_from_code(0x32) == Ok::<Status, BadStatusError>(Status::RoleSwitchPending),
        status_from_code(0x33) == Ok::<Status, BadStatusError>(Status::ReservedForFutureUse51),
        status_from_code(0x34) == Ok::<Status, BadStatusError>(Status::ReservedSlotViolation),
        status_from_code(0x35) == Ok::<Status, BadStatusError>(Status::RoleSwitchFailed),
        status_from_code(0x36) == Ok::<Status, BadStatusError>(Status::ExtendedInquiryResponseTooLarge),
        status_from_code(0x37) == Ok::<Status, BadStatusError>(Status::SecureSimplePairingNotSupportedByHost),
        status_from_code(0x38) == Ok::<Status, BadStatusError>(Status::HostBusyPairing),
        status_from_code(0x39) == Ok::<Status, BadStatusError>(Status::ConnectionRejectedNoSuitableChannel),
        status_from_code(0x3A) == Ok::<Status, BadStatusError>(Status::ControllerBusy),
        status_from_code(0x3B) == Ok::<Status, BadStatusError>(Status::UnacceptableConnectionParameters),
        status_from_code(0x3C) == Ok::<Status, BadStatusError>(Status::AdvertisingTimeout),
        status_from_code(0x3D) == Ok::<Status, BadStatusError>(Status::ConnectionTerminatedMicFailure),
        status_from_code(0x3E) == Ok::<Status, BadStatusError>(Status::ConnectionFailedToEstablish),
        status_from_code(0x3F) == Ok::<Status, BadStatusError>(Status::MacConnectionFailed),
        status_from_code(0x40) == Ok::<Status, BadStatusError>(Status::CoarseClockAdjustmentRejectedDraggingAttempted),
        status_from_code(0x41) == Ok::<Status, BadStatusError>(Status::Type0SubmapNotDefined),
        status_from_code(0x42) == Ok::<Status, BadStatusError>(Status::UnknownAdvertisingId),
        status_from_code(0x43) == Ok::<Status, BadStatusError>(Status::LimitReached),
        status_from_code(0x44) == Ok::<Status, BadStatusError>(Status::OperationCancelledByHost),
{
    lemma_status_code_round_trip(Status::Success);
    lemma_status_code_round_trip(Status::UnknownCommand);
    lemma_status_code_round_trip(Status::UnknownConnectionId);
    lemma_status_code_round_trip(Status::HardwareFailure);
    lemma_status_code_round_trip(Status::PageTimeout);
    lemma_status_code_round_trip(Status::AuthFailure);
    lemma_status_code_round_trip(Status::PinOrKeyMissing);
    lemma_status_code_round_trip(Status::OutOfMemory);
    lemma_status_code_round_trip(Status::ConnectionTimeout);
    lemma_status_code_round_trip(Status::ConnectionLimitExceeeded);
    lemma_status_code_round_trip(Status::SyncConnectionLimitExceeded);
    lemma_status_code_round_trip(Status::ConnectionAlreadyExists);
    lemma_status_code_round_trip(Status::CommandDisallowed);
    lemma_status_code_round_trip(Status::LimitedResources);
    lemma_status_code_round_trip(Status::ConnectionRejectedSecurity);
    lemma_status_code_round_trip(Status::UnacceptableBdAddr);
    lemma_status_code_round_trip(Status::AcceptTimeoutExceeded);
    lemma_status_code_round_trip(Status::UnsupportedFeature);
    lemma_status_code_round_trip(Status::InvalidParameters);
    lemma_status_code_round_trip(Status::RemoteTerminationByUser);
    lemma_status_code_round_trip(Status::RemoteTerminationLowResources);
    lemma_status_code_round_trip(Status::RemoteTerminationPowerOff);
    lemma_status_code_round_trip(Status::ConnectionTerminatedByHost);
    lemma_status_code_round_trip(Status::RepeatedAttempts);
    lemma_status_code_round_trip(Status::PairingNotAllowed);
    lemma_status_code_round_trip(Status::UnknownLmpPdu);
    lemma_status_code_round_trip(Status::UnsupportedRemoteFeature);
    lemma_status_code_round_trip(Status::ScoOffsetRejected);
    lemma_status_code_round_trip(Status::ScoIntervalRejected);
    lemma_status_code_round_trip(Status::ScoAirModeRejected);
    lemma_status_code_round_trip(Status::InvalidLmpParameters);
    lemma_status_code_round_trip(Status::UnspecifiedError);
    lemma_status_code_round_trip(Status::UnsupportedLmpParameterValue);
    lemma_status_code_round_trip(Status::RoleChangeNotAllowed);
    lemma_status_code_round_trip(Status::LmpResponseTimeout);
    lemma_status_code_round_trip(Status::LmpTransactionCollision);
    lemma_status_code_round_trip(Status::LmpPduNotAllowed);
    lemma_status_code_round_trip(Status::EncryptionModeNotAcceptable);
    lemma_status_code_round_trip(Status::LinkKeyCannotBeChanged);
    lemma_status_code_round_trip(Status::RequestedQosNotSupported);
    lemma_status_code_round_trip(Status::InstantPassed);
    lemma_status_code_round_trip(Status::PairingWithUnitKeyNotSupported);
    lemma_status_code_round_trip(Status::DifferentTransactionCollision);
    lemma_status_code_round_trip(Status::ReservedforFutureUse);
    lemma_status_code_round_trip(Status::QosUnacceptableParameter);
    lemma_status_code_round_trip(Status::QosRejected);
    lemma_status_code_round_trip(Status::ChannelClassificationNotSupported);
    lemma_status_code_round_trip(Status::InsufficientSecurity);
    lemma_status_code_round_trip(Status::ParameterOutOfMandatoryRange);
    lemma_status_code_round_trip(Status::ReservedForFutureUse49);
    lemma_status_code_round_trip(Status::RoleSwitchPending);
    lemma_status_code_round_trip(Status::ReservedForFutureUse51);
    lemma_status_code_round_trip(Status::ReservedSlotViolation);
    lemma_status_code_round_trip(Status::RoleSwitchFailed);
    lemma_status_code_round_trip(Status::ExtendedInquiryResponseTooLarge);
    lemma_status_code_round_trip(Status::SecureSimplePairingNotSupportedByHost);
    lemma_status_code_round_trip(Status::HostBusyPairing);
    lemma_status_code_round_trip(Status::ConnectionRejectedNoSuitableChannel);
    lemma_status_code_round_trip(Status::ControllerBusy);
    lemma_status_code_round_trip(Status::UnacceptableConnectionParameters);
    lemma_status_code_round_trip(Status::AdvertisingTimeout);
    lemma_status_code_round_trip(Status::ConnectionTerminatedMicFailure);
    lemma_status_code_round_trip(Status::ConnectionFailedToEstablish);
    lemma_status_code_round_trip(Status::MacConnectionFailed);
    lemma_status_code_round_trip(Status::CoarseClockAdjustmentRejectedDraggingAttempted);
    lemma_status_code_round_trip(Status::Type0SubmapNotDefined);
    lemma_status_code_round_trip(Status::UnknownAdvertisingId);
    lemma_status_code_round_trip(Status::LimitReached);
    lemma_status_code_round_trip(Status::OperationCancelledByHost);
}

/// A byte above the specification's codes is read as the vendor-specific status with that code,
/// and is refused exactly when no vendor-specific status has it.
pub proof fn lemma_status_from_code_above_standard(b: u8)
    requires
        b > 0x44,
    ensures
        vendor_status_from_code(b) matches Ok(v) ==> status_from_code(b)
            == Ok::<Status, BadStatusError>(Status::Vendor(v)),
        vendor_status_from_code(b) is Err ==> status_from_code(b)
            == Err::<Status, BadStatusError>(BadStatusError::BadValue(b)),
{
    lemma_standard_status_codes(b);
    lemma_vendor_status_from_code_encodes(b);
}

/// A vendor-specific status is written as its vendor code.
pub proof fn lemma_vendor_status_written_as_vendor_code(v: VendorStatus)
    ensures
        status_code(Status::Vendor(v)) == vendor_status_code(v),
{
}

impl core::convert::TryFrom<u8> for Status {
    type Error = BadStatusError;

    fn try_from(value: u8) -> (ret: Result<Status, BadStatusError>) {
        let res = match value {
            0x00 => Ok(Status::Success),
            0x01 => Ok(Status::UnknownCommand),
            0x02 => Ok(Status::UnknownConnectionId),
            0x03 => Ok(Status::HardwareFailure),
            0x04 => Ok(Status::PageTimeout),
            0x05 => Ok(Status::AuthFailure),
            0x06 => Ok(Status::PinOrKeyMissing),
            0x07 => Ok(Status::OutOfMemory),
            0x08 => Ok(Status::ConnectionTimeout),
            0x09 => Ok(Status::ConnectionLimitExceeeded),
            0x0A => Ok(Status::SyncConnectionLimitExceeded),
            0x0B => Ok(Status::ConnectionAlreadyExists),
            0x0C => Ok(Status::CommandDisallowed),
            0x0D => Ok(Status::LimitedResources),
            0x0E => Ok(Status::ConnectionRejectedSecurity),
            0x0F => Ok(Status::UnacceptableBdAddr),
            0x10 => Ok(Status::AcceptTimeoutExceeded),
            0x11 => Ok(Status::UnsupportedFeature),
            0x12 => Ok(Status::InvalidParameters),
            0x13 => Ok(Status::RemoteTerminationByUser),
            0x14 => Ok(Status::RemoteTerminationLowResources),
            0x15 => Ok(Status::RemoteTerminationPowerOff),
            0x16 => Ok(Status::ConnectionTerminatedByHost),
            0x17 => Ok(Status::RepeatedAttempts),
            0x18 => Ok(Status::PairingNotAllowed),
            0x19 => Ok(Status::UnknownLmpPdu),
            0x1A => Ok(Status::UnsupportedRemoteFeature),
            0x1B => Ok(Status::ScoOffsetRejected),
            0x1C => Ok(Status::ScoIntervalRejected),
            0x1D => Ok(Status::ScoAirModeRejected),
            0x1E => Ok(Status::InvalidLmpParameters),
            0x1F => Ok(Status::UnspecifiedError),
            0x20 => Ok(Status::UnsupportedLmpParameterValue),
            0x21 => Ok(Status::RoleChangeNotAllowed),
            0x22 => Ok(Status::LmpResponseTimeout),
            0x23 => Ok(Status::LmpTransactionCollision),
            0x24 => Ok(Status::LmpPduNotAllowed),
            0x25 => Ok(Status::EncryptionModeNotAcceptable),
            0x26 => Ok(Status::LinkKeyCannotBeChanged),
            0x27 => Ok(Status::RequestedQosNotSupported),
            0x28 => Ok(Status::InstantPassed),
            0x29 => Ok(Status::PairingWithUnitKeyNotSupported),
            0x2A => Ok(Status::DifferentTransactionCollision),
            0x2B => Ok(Status::ReservedforFutureUse),
            0x2C => Ok(Status::QosUnacceptableParameter),
            0x2D => Ok(Status::QosRejected),
            0x2E => Ok(Status::ChannelClassificationNotSupported),
            0x2F => Ok(Status::InsufficientSecurity),
            0x30 => Ok(Status::ParameterOutOfMandatoryRange),
            0x31 => Ok(Status::ReservedForFutureUse49),
            0x32 => Ok(Status::RoleSwitchPending),
            0x33 => Ok(Status::ReservedForFutureUse51),
            0x34 => Ok(Status::ReservedSlotViolation),
            0x35 => Ok(Status::RoleSwitchFailed),
            0x36 => Ok(Status::ExtendedInquiryResponseTooLarge),
            0x37 => Ok(Status::SecureSimplePairingNotSupportedByHost),
            0x38 => Ok(Status::HostBusyPairing),
            0x39 => Ok(Status::ConnectionRejectedNoSuitableChannel),
            0x3A => Ok(Status::ControllerBusy),
            0x3B => Ok(Status::UnacceptableConnectionParameters),
            0x3C => Ok(Status::AdvertisingTimeout),
            0x3D => Ok(Status::ConnectionTerminatedMicFailure),
            0x3E => Ok(Status::ConnectionFailedToEstablish),
            0x3F => Ok(Status::MacConnectionFailed),
            0x40 => Ok(Status::CoarseClockAdjustmentRejectedDraggingAttempted),
            0x41 => Ok(Status::Type0SubmapNotDefined),
            0x42 => Ok(Status::UnknownAdvertisingId),
            0x43 => Ok(Status::LimitReached),
            0x44 => Ok(Status::OperationCancelledByHost),
            _ => match VendorStatus::try_from(value) {
                Ok(v) => Ok(Status::Vendor(v)),
                Err(e) => Err(e),
            },
        };
        proof {
            match res {
                Ok(s) => {
                    if s !is Vendor {
                        assert(status_code(s) == value);
                        let w = choose|w: Status| w !is Vendor && #[trigger] status_code(w) == value;
                        lemma_standard_status_code_injective(s, w);
                    } else {
                        assert forall|w: Status| w !is Vendor implies #[trigger] status_code(w)
                            != value by {}
                    }
                },
                Err(_) => {
                    assert forall|w: Status| w !is Vendor implies #[trigger] status_code(w)
                        != value by {}
                },
            }
        }
        res
    }
}

impl vstd::std_specs::convert::TryFromSpecImpl<u8> for Status {
    open spec fn obeys_try_from_spec() -> bool {
        true
    }

    open spec fn try_from_spec(v: u8) -> Result<Self, BadStatusError> {
        status_from_code(v)
    }
}

impl core::convert::From<Status> for u8 {
    fn from(val: Status) -> (ret: u8) {
        match val {
            Status::Success => 0x00,
            Status::UnknownCommand => 0x01,
            Status::UnknownConnectionId => 0x02,
            Status::HardwareFailure => 0x03,
            Status::PageTimeout => 0x04,
            Status::AuthFailure => 0x05,
            Status::PinOrKeyMissing => 0x06,
            Status::OutOfMemory => 0x07,
            Status::ConnectionTimeout => 0x08,
            Status::ConnectionLimitExceeeded => 0x09,
            Status::SyncConnectionLimitExceeded => 0x0A,
            Status::ConnectionAlreadyExists => 0x0B,
            Status::CommandDisallowed => 0x0C,
            Status::LimitedResources => 0x0D,
            Status::ConnectionRejectedSecurity => 0x0E,
            Status::UnacceptableBdAddr => 0x0F,
            Status::AcceptTimeoutExceeded => 0x10,
            Status::UnsupportedFeature => 0x11,
            Status::InvalidParameters => 0x12,
            Status::RemoteTerminationByUser => 0x13,
            Status::RemoteTerminationLowResources => 0x14,
            Status::RemoteTerminationPowerOff => 0x15,
            Status::ConnectionTerminatedByHost => 0x16,
            Status::RepeatedAttempts => 0x17,
            Status::PairingNotAllowed => 0x18,
            Status::UnknownLmpPdu => 0x19,
            Status::UnsupportedRemoteFeature => 0x1A,
            Status::ScoOffsetRejected => 0x1B,
            Status::ScoIntervalRejected => 0x1C,
            Status::ScoAirModeRejected => 0x1D,
            Status::InvalidLmpParameters => 0x1E,
            Status::UnspecifiedError => 0x1F,
            Status::UnsupportedLmpParameterValue => 0x20,
            Status::RoleChangeNotAllowed => 0x21,
            Status::LmpResponseTimeout => 0x22,
            Status::LmpTransactionCollision => 0x23,
            Status::LmpPduNotAllowed => 0x24,
            Status::EncryptionModeNotAcceptable => 0x25,
            Status::LinkKeyCannotBeChanged => 0x26,
            Status::RequestedQosNotSupported => 0x27,
            Status::InstantPassed => 0x28,
            Status::PairingWithUnitKeyNotSupported => 0x29,
            Status::DifferentTransactionCollision => 0x2A,
            Status::ReservedforFutureUse => 0x2B,
            Status::QosUnacceptableParameter => 0x2C,
            Status::QosRejected => 0x2D,
            Status::ChannelClassificationNotSupported => 0x2E,
            Status::InsufficientSecurity => 0x2F,
            Status::ParameterOutOfMandatoryRange => 0x30,
            Status::ReservedForFutureUse49 => 0x31,
            Status::RoleSwitchPending => 0x32,
            Status::ReservedForFutureUse51 => 0x33,
            Status::ReservedSlotViolation => 0x34,
            Status::RoleSwitchFailed => 0x35,
            Status::ExtendedInquiryResponseTooLarge => 0x36,
            Status::SecureSimplePairingNotSupportedByHost => 0x37,
            Status::HostBusyPairing => 0x38,
            Status::ConnectionRejectedNoSuitableChannel => 0x39,
            Status::ControllerBusy => 0x3A,
            Status::UnacceptableConnectionParameters => 0x3B,
            Status::AdvertisingTimeout => 0x3C,
            Status::ConnectionTerminatedMicFailure => 0x3D,
            Status::ConnectionFailedToEstablish => 0x3E,
            Status::MacConnectionFailed => 0x3F,
            Status::CoarseClockAdjustmentRejectedDraggingAttempted => 0x40,
            Status::Type0SubmapNotDefined => 0x41,
            Status::UnknownAdvertisingId => 0x42,
            Status::LimitReached => 0x43,
            Status::OperationCancelledByHost => 0x44,
            Status::Vendor(v) => v.into(),
        }
    }
}

impl vstd::std_specs::convert::FromSpecImpl<Status> for u8 {
    open spec fn obeys_from_spec() -> bool {
        true
    }

    open spec fn from_spec(v: Status) -> u8 {
        status_code(v)
    }
}

} // verus!
