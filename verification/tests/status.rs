use eps_api::match_stat;
use eps_api::EpsError;

#[test]
fn status_zero_and_first_read_are_accepted() {
    assert_eq!(match_stat(0x00), Ok(()));
    assert_eq!(match_stat(0x80), Ok(()));
}

#[test]
fn status_four_is_parameter_invalid() {
    assert_eq!(match_stat(0x04), Err(EpsError::Parameterinvalid));
}

#[test]
fn undefined_status_is_internal_processing() {
    assert_eq!(match_stat(0x7F), Err(EpsError::InternalProcessing));
    assert_eq!(match_stat(0x10), Err(EpsError::InternalProcessing));
    assert_eq!(match_stat(0xFF), Err(EpsError::InternalProcessing));
}

#[test]
fn each_rejection_has_its_error() {
    assert_eq!(match_stat(0x01), Err(EpsError::Rejected));
    assert_eq!(match_stat(0x02), Err(EpsError::InvalidCommandCode));
    assert_eq!(match_stat(0x03), Err(EpsError::ParameterMissing));
    assert_eq!(match_stat(0x05), Err(EpsError::UnavailableMode));
    assert_eq!(match_stat(0x06), Err(EpsError::InvalidSystemType));
}
