use eps_api::EpsError;
use eps_api::ServiceError;

fn numbered() -> Vec<(EpsError, u8)> {
    vec![
        (EpsError::Other, 0),
        (EpsError::I2CSet, 1),
        (EpsError::TransferError, 2),
        (EpsError::InvalidInput, 3),
        (EpsError::Rejected, 4),
        (EpsError::InvalidCommandCode, 5),
        (EpsError::ParameterMissing, 6),
        (EpsError::Parameterinvalid, 7),
        (EpsError::UnavailableMode, 8),
        (EpsError::InvalidSystemType, 9),
        (EpsError::InternalProcessing, 10),
        (EpsError::InvalidResetCause, 11),
        (EpsError::InvalidEpsMode, 12),
        (EpsError::InvalidBusChannelState, 13),
    ]
}

#[test]
fn each_error_has_its_service_number() {
    for (e, n) in numbered() {
        assert_eq!(ServiceError::from(e), ServiceError::ServiceError(n));
    }
}

#[test]
fn each_service_number_reads_back_as_its_error() {
    for (e, n) in numbered() {
        assert_eq!(EpsError::from(ServiceError::ServiceError(n)), e);
    }
}

#[test]
fn unknown_service_numbers_read_as_the_plain_error() {
    for n in 14..=255u8 {
        assert_eq!(EpsError::from(ServiceError::ServiceError(n)), EpsError::Other);
    }
    assert_eq!(EpsError::from(ServiceError::Other), EpsError::Other);
}

#[test]
fn io_errors_keep_their_number_and_kind() {
    assert_eq!(ServiceError::from(EpsError::I2CError2(5)), ServiceError::Io(5));
    assert_eq!(EpsError::from(ServiceError::Io(5)), EpsError::I2CError2(5));
    let kind = std::io::ErrorKind::TimedOut;
    assert_eq!(ServiceError::from(EpsError::I2CError(kind)), ServiceError::IoKind(kind));
    assert_eq!(EpsError::from(ServiceError::IoKind(kind)), EpsError::I2CError(kind));
}

#[test]
fn every_error_reads_back_from_its_service_form() {
    let mut all: Vec<EpsError> = numbered().into_iter().map(|p| p.0).collect();
    all.push(EpsError::I2CError2(0));
    all.push(EpsError::I2CError2(255));
    all.push(EpsError::I2CError(std::io::ErrorKind::NotFound));
    for e in all {
        assert_eq!(EpsError::from(ServiceError::from(e.clone())), e);
    }
}

#[test]
fn errors_say_what_they_are() {
    assert_eq!(EpsError::Other.message(), "Eps Error");
    assert_eq!(EpsError::I2CError(std::io::ErrorKind::Other).message(), "I2C Error");
    assert_eq!(EpsError::I2CError2(3).message(), "I2C Error");
    assert_eq!(EpsError::I2CSet.message(), "I2C Set Error");
    assert_eq!(EpsError::TransferError.message(), "Transfer error");
    assert_eq!(EpsError::InvalidInput.message(), "InvalidInput error");
    assert_eq!(EpsError::Rejected.message(), "Rejected");
    assert_eq!(EpsError::InvalidCommandCode.message(), "Rejected: Invalid command code error");
    assert_eq!(EpsError::ParameterMissing.message(), "Rejected: Parameter missing error");
    assert_eq!(EpsError::Parameterinvalid.message(), "Rejected: Parameter invalid error");
    assert_eq!(
        EpsError::UnavailableMode.message(),
        "Rejected: Unavailable in current mode/configuration error"
    );
    assert_eq!(
        EpsError::InvalidSystemType.message(),
        "Rejected: Invalid system type, interface version, or BID error"
    );
    assert_eq!(EpsError::InternalProcessing.message(), "Internal error occurred during processing");
    assert_eq!(EpsError::InvalidResetCause.message(), "Invalid Reset Cause");
    assert_eq!(EpsError::InvalidEpsMode.message(), "Invalid Eps Mode");
    assert_eq!(EpsError::InvalidBusChannelState.message(), "Invalid Bus Channel State");
}
