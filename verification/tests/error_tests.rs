use sphrosyne::error::{self, Error};

#[test]
fn success_code_maps_to_ok() {
    assert_eq!(error::check(error::VIGEM_ERROR_NONE), Ok(()));
}

#[test]
fn every_named_code_maps_to_its_kind() {
    assert_eq!(error::check(error::VIGEM_ERROR_BUS_NOT_FOUND), Err(Error::BusNotFound));
    assert_eq!(error::check(error::VIGEM_ERROR_NO_FREE_SLOT), Err(Error::NoFreeSlot));
    assert_eq!(error::check(error::VIGEM_ERROR_INVALID_TARGET), Err(Error::InvalidTarget));
    assert_eq!(error::check(error::VIGEM_ERROR_REMOVAL_FAILED), Err(Error::RemovalFailed));
    assert_eq!(error::check(error::VIGEM_ERROR_ALREADY_CONNECTED), Err(Error::AlreadyConnected));
    assert_eq!(
        error::check(error::VIGEM_ERROR_TARGET_UNINITIALIZED),
        Err(Error::TargetUninitialized)
    );
    assert_eq!(
        error::check(error::VIGEM_ERROR_TARGET_NOT_PLUGGED_IN),
        Err(Error::TargetNotPluggedIn)
    );
    assert_eq!(
        error::check(error::VIGEM_ERROR_BUS_VERSION_MISMATCH),
        Err(Error::BusVersionMismatch)
    );
    assert_eq!(error::check(error::VIGEM_ERROR_BUS_ACCESS_FAILED), Err(Error::BusAccessFailed));
    assert_eq!(
        error::check(error::VIGEM_ERROR_CALLBACK_ALREADY_REGISTERED),
        Err(Error::CallbackAlreadyRegistered)
    );
    assert_eq!(error::check(error::VIGEM_ERROR_CALLBACK_NOT_FOUND), Err(Error::CallbackNotFound));
    assert_eq!(
        error::check(error::VIGEM_ERROR_BUS_ALREADY_CONNECTED),
        Err(Error::BusAlreadyConnected)
    );
    assert_eq!(error::check(error::VIGEM_ERROR_BUS_INVALID_HANDLE), Err(Error::BusInvalidHandle));
    assert_eq!(
        error::check(error::VIGEM_ERROR_XUSB_USERINDEX_OUT_OF_RANGE),
        Err(Error::UserIndexOutOfRange)
    );
    assert_eq!(error::check(error::VIGEM_ERROR_INVALID_PARAMETER), Err(Error::InvalidParameter));
    assert_eq!(error::check(error::VIGEM_ERROR_NOT_SUPPORTED), Err(Error::NotSupported));
}

#[test]
fn a_code_outside_the_set_is_kept_in_the_catch_all() {
    assert_eq!(error::check(0xE0000099), Err(Error::UnknownError(0xE0000099)));
    assert_eq!(error::check(1), Err(Error::UnknownError(1)));
}
