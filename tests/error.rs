use vkfft::app::LaunchError;
use vkfft::config::ConfigError;
use vkfft::error::{check_status, Error, STATUS_SUCCESS};
use vkfft::Version;

#[test]
fn success_status_is_ok() {
    assert_eq!(check_status(STATUS_SUCCESS), Ok(()));
    assert_eq!(Error::from_status(0), None);
}

#[test]
fn failure_statuses_map_to_their_variants() {
    assert_eq!(check_status(1001), Err(Error::InvalidPhysicalDevice));
    assert_eq!(check_status(1009), Err(Error::InvalidPlatform));
    assert_eq!(check_status(2001), Err(Error::EmptyFftDim));
    assert_eq!(check_status(2012), Err(Error::EmptyKernel));
    assert_eq!(check_status(3003), Err(Error::UnsupportedFftLengthR2C));
    assert_eq!(check_status(4001), Err(Error::FailedToAllocate));
    assert_eq!(check_status(4010), Err(Error::FailedToCreatedDescriptorSetLayout));
    assert_eq!(check_status(4050), Err(Error::FailedToEnumerateDevices));
}

#[test]
fn unknown_status_is_an_error() {
    assert_eq!(check_status(1), Err(Error::UnrecognizedStatus(1)));
    assert_eq!(check_status(1010), Err(Error::UnrecognizedStatus(1010)));
    assert_eq!(check_status(4051), Err(Error::UnrecognizedStatus(4051)));
    assert_eq!(Error::from_status(999), None);
}

#[test]
fn validation_errors_wrap() {
    assert_eq!(Error::from(ConfigError::InvalidConfig), Error::Config(ConfigError::InvalidConfig));
    assert_eq!(
        Error::from(LaunchError::ConfigSpecifiesKernel),
        Error::Launch(LaunchError::ConfigSpecifiesKernel)
    );
}

#[test]
fn version_is_decoded_from_packed_integer() {
    let v = Version::from_raw(10213);
    assert_eq!((v.major(), v.minor(), v.patch()), (1, 2, 13));
    let v = Version::from_raw(0);
    assert_eq!((v.major(), v.minor(), v.patch()), (0, 0, 0));
    let v = Version::from_raw(123456);
    assert_eq!((v.major(), v.minor(), v.patch()), (12, 34, 56));
}
