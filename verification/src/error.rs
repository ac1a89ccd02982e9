//! The errors that an operation can end in.

use vstd::prelude::*;
use vstd::std_specs::convert::FromSpecImpl;

verus! {

/// `std::io::ErrorKind`, the kind of an I/O error: carried, never looked into.
#[verifier::external_type_specification]
#[verifier::external_body]
pub struct ExErrorKind(std::io::ErrorKind);

/// `Clone::clone` of `std::io::ErrorKind`, a `Copy` type: the clone is the
/// value itself.
pub assume_specification[ <std::io::ErrorKind as Clone>::clone ](kind: &std::io::ErrorKind) -> (r:
    std::io::ErrorKind)
    ensures
        r == *kind,
;

/// Why an operation failed.
#[derive(Debug, Clone, PartialEq)]
pub enum EpsError {
    /// A failure with no further cause.
    Other,
    /// The bus failed, with the kind of I/O error that it gave.
    I2CError(std::io::ErrorKind),
    /// The bus failed, with an error number.
    I2CError2(u8),
    /// The bus could not be set up.
    I2CSet,
    /// The transfer on the bus failed.
    TransferError,
    /// An argument was outside what the operation accepts.
    InvalidInput,
    /// The unit rejected the command.
    Rejected,
    /// The unit does not know the command code.
    InvalidCommandCode,
    /// The unit missed a parameter.
    ParameterMissing,
    /// The unit refused a parameter.
    Parameterinvalid,
    /// The command is unavailable in the unit's mode or configuration.
    UnavailableMode,
    /// The system type, interface version or board identifier was wrong.
    InvalidSystemType,
    /// The unit failed internally while processing the command.
    InternalProcessing,
    /// A byte that names no reset cause.
    InvalidResetCause,
    /// A byte that names no mode.
    InvalidEpsMode,
    /// A state of the output channels that the command cannot express.
    InvalidBusChannelState,
}

/// The result of an operation.
pub type EpsResult<T> = Result<T, EpsError>;

/// An error in the form in which a service hands it on: a number that the
/// service defines, an I/O error by number or by kind, or anything else.
#[derive(Debug, Clone, PartialEq)]
pub enum ServiceError {
    /// An error of the service, by its number.
    ServiceError(u8),
    /// An I/O error, by its number.
    Io(u8),
    /// An I/O error, by its kind.
    IoKind(std::io::ErrorKind),
    /// An error of any other form.
    Other,
}

impl EpsError {
    /// The error in the form of a service: each error has a number of its
    /// own, from 0 on in the order of the variants, but for the two I/O
    /// errors, which keep their number or kind.
    pub open spec fn service_form(self) -> ServiceError {
        match self {
            EpsError::Other => ServiceError::ServiceError(0),
            EpsError::I2CError(kind) => ServiceError::IoKind(kind),
            EpsError::I2CError2(io) => ServiceError::Io(io),
            EpsError::I2CSet => ServiceError::ServiceError(1),
            EpsError::TransferError => ServiceError::ServiceError(2),
            EpsError::InvalidInput => ServiceError::ServiceError(3),
            EpsError::Rejected => ServiceError::ServiceError(4),
            EpsError::InvalidCommandCode => ServiceError::ServiceError(5),
            EpsError::ParameterMissing => ServiceError::ServiceError(6),
            EpsError::Parameterinvalid => ServiceError::ServiceError(7),
            EpsError::UnavailableMode => ServiceError::ServiceError(8),
            EpsError::InvalidSystemType => ServiceError::ServiceError(9),
            EpsError::InternalProcessing => ServiceError::ServiceError(10),
            EpsError::InvalidResetCause => ServiceError::ServiceError(11),
            EpsError::InvalidEpsMode => ServiceError::ServiceError(12),
            EpsError::InvalidBusChannelState => ServiceError::ServiceError(13),
        }
    }

    /// The error that a service's error stands for. A number that the
    /// service defines is read back as the error that has it; a number that
    /// none has, and an error of any other form, is the error with no
    /// further cause.
    pub open spec fn of_service(e: ServiceError) -> EpsError {
        match e {
            ServiceError::Io(io) => EpsError::I2CError2(io),
            ServiceError::IoKind(kind) => EpsError::I2CError(kind),
            ServiceError::Other => EpsError::Other,
            ServiceError::ServiceError(n) => if n == 1 {
                EpsError::I2CSet
            } else if n == 2 {
                EpsError::TransferError
            } else if n == 3 {
                EpsError::InvalidInput
            } else if n == 4 {
                EpsError::Rejected
            } else if n == 5 {
                EpsError::InvalidCommandCode
            } else if n == 6 {
                EpsError::ParameterMissing
            } else if n == 7 {
                EpsError::Parameterinvalid
            } else if n == 8 {
                EpsError::UnavailableMode
            } else if n == 9 {
                EpsError::InvalidSystemType
            } else if n == 10 {
                EpsError::InternalProcessing
            } else if n == 11 {
                EpsError::InvalidResetCause
            } else if n == 12 {
                EpsError::InvalidEpsMode
            } else if n == 13 {
                EpsError::InvalidBusChannelState
            } else {
                EpsError::Other
            },
        }
    }

    /// What the error says of itself.
    pub open spec fn message_text(self) -> Seq<char> {
        match self {
            EpsError::Other => "Eps Error"@,
            EpsError::I2CError(_) => "I2C Error"@,
            EpsError::I2CError2(_) => "I2C Error"@,
            EpsError::I2CSet => "I2C Set Error"@,
            EpsError::TransferError => "Transfer error"@,
            EpsError::InvalidInput => "InvalidInput error"@,
            EpsError::Rejected => "Rejected"@,
            EpsError::InvalidCommandCode => "Rejected: Invalid command code error"@,
            EpsError::ParameterMissing => "Rejected: Parameter missing error"@,
            EpsError::Parameterinvalid => "Rejected: Parameter invalid error"@,
            EpsError::UnavailableMode => "Rejected: Unavailable in current mode/configuration error"@,
            EpsError::InvalidSystemType => "Rejected: Invalid system type, interface version, or BID error"@,
            EpsError::InternalProcessing => "Internal error occurred during processing"@,
            EpsError::InvalidResetCause => "Invalid Reset Cause"@,
            EpsError::InvalidEpsMode => "Invalid Eps Mode"@,
            EpsError::InvalidBusChannelState => "Invalid Bus Channel State"@,
        }
    }

    /// What the error says of itself.
    pub fn message(&self) -> (r: &'static str)
        ensures
            r@ == self.message_text(),
    {
        match self {
            EpsError::Other => "Eps Error",
            EpsError::I2CError(_) => "I2C Error",
            EpsError::I2CError2(_) => "I2C Error",
            EpsError::I2CSet => "I2C Set Error",
            EpsError::TransferError => "Transfer error",
            EpsError::InvalidInput => "InvalidInput error",
            EpsError::Rejected => "Rejected",
            EpsError::InvalidCommandCode => "Rejected: Invalid command code error",
            EpsError::ParameterMissing => "Rejected: Parameter missing error",
            EpsError::Parameterinvalid => "Rejected: Parameter invalid error",
            EpsError::UnavailableMode => "Rejected: Unavailable in current mode/configuration error",
            EpsError::InvalidSystemType => "Rejected: Invalid system type, interface version, or BID error",
            EpsError::InternalProcessing => "Internal error occurred during processing",
            EpsError::InvalidResetCause => "Invalid Reset Cause",
            EpsError::InvalidEpsMode => "Invalid Eps Mode",
            EpsError::InvalidBusChannelState => "Invalid Bus Channel State",
        }
    }
}

impl From<EpsError> for ServiceError {
    fn from(e: EpsError) -> (r: ServiceError) {
        match e {
            EpsError::Other => ServiceError::ServiceError(0),
            EpsError::I2CError(kind) => ServiceError::IoKind(kind),
            EpsError::I2CError2(io) => ServiceError::Io(io),
            EpsError::I2CSet => ServiceError::ServiceError(1),
            EpsError::TransferError => ServiceError::ServiceError(2),
            EpsError::InvalidInput => ServiceError::ServiceError(3),
            EpsError::Rejected => ServiceError::ServiceError(4),
            EpsError::InvalidCommandCode => ServiceError::ServiceError(5),
            EpsError::ParameterMissing => ServiceError::ServiceError(6),
            EpsError::Parameterinvalid => ServiceError::ServiceError(7),
            EpsError::UnavailableMode => ServiceError::ServiceError(8),
            EpsError::InvalidSystemType => ServiceError::ServiceError(9),
            EpsError::InternalProcessing => ServiceError::ServiceError(10),
            EpsError::InvalidResetCause => ServiceError::ServiceError(11),
            EpsError::InvalidEpsMode => ServiceError::ServiceError(12),
            EpsError::InvalidBusChannelState => ServiceError::ServiceError(13),
        }
    }
}

impl FromSpecImpl<EpsError> for ServiceError {
    open spec fn obeys_from_spec() -> bool {
        true
    }

    open spec fn from_spec(e: EpsError) -> ServiceError {
        e.service_form()
    }
}

impl From<ServiceError> for EpsError {
    fn from(e: ServiceError) -> (r: EpsError) {
        match e {
            ServiceError::ServiceError(0) => EpsError::Other,
            ServiceError::Io(io) => EpsError::I2CError2(io),
            ServiceError::IoKind(kind) => EpsError::I2CError(kind),
            ServiceError::ServiceError(1) => EpsError::I2CSet,
            ServiceError::ServiceError(2) => EpsError::TransferError,
            ServiceError::ServiceError(3) => EpsError::InvalidInput,
            ServiceError::ServiceError(4) => EpsError::Rejected,
            ServiceError::ServiceError(5) => EpsError::InvalidCommandCode,
            ServiceError::ServiceError(6) => EpsError::ParameterMissing,
            ServiceError::ServiceError(7) => EpsError::Parameterinvalid,
            ServiceError::ServiceError(8) => EpsError::UnavailableMode,
            ServiceError::ServiceError(9) => EpsError::InvalidSystemType,
            ServiceError::ServiceError(10) => EpsError::InternalProcessing,
            ServiceError::ServiceError(11) => EpsError::InvalidResetCause,
            ServiceError::ServiceError(12) => EpsError::InvalidEpsMode,
            ServiceError::ServiceError(13) => EpsError::InvalidBusChannelState,
            _ => EpsError::Other,
        }
    }
}

impl FromSpecImpl<ServiceError> for EpsError {
    open spec fn obeys_from_spec() -> bool {
        true
    }

    open spec fn from_spec(e: ServiceError) -> EpsError {
        EpsError::of_service(e)
    }
}

/// An error that went to a service and came back is the error that went.
pub proof fn service_form_reads_back(e: EpsError)
    ensures
        EpsError::of_service(e.service_form()) == e,
{
}

/// The numbers of a service that stand for an error of their own are 1 to
/// 13: every other number, like every error of another form, reads as the
/// error with no further cause.
pub proof fn unknown_numbers_read_as_other(n: u8)
    requires
        n == 0 || n > 13,
    ensures
        EpsError::of_service(ServiceError::ServiceError(n)) == EpsError::Other,
{
}

} // verus!
