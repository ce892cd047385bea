//! Errors and the statuses behind them.
use shiguredo_vpl::error::find_status;
use shiguredo_vpl::sys;
use shiguredo_vpl::Error;

#[test]
fn test_new_custom_display() {
    let error = Error::new_custom("test_func", "custom error message");
    assert_eq!(
        error.to_string(),
        "test_func() failed: custom error message"
    );
}

#[test]
fn test_check_mfx_success() {
    let result = Error::check_mfx(sys::MFX_ERR_NONE, "mfx_func");
    assert!(result.is_ok());
}

#[test]
fn test_check_mfx_error() {
    let result = Error::check_mfx(sys::MFX_ERR_UNSUPPORTED, "mfx_func");
    let error = result.expect_err("not err");
    assert_eq!(
        error.to_string(),
        "mfx_func() failed[status=-3]: Unsupported feature or implementation (MFX_ERR_UNSUPPORTED)"
    );
}

#[test]
fn test_check_mfx_allow_warn_success() {
    let result = Error::check_mfx_allow_warn(sys::MFX_ERR_NONE, "mfx_func");
    assert!(result.is_ok());
}

#[test]
fn test_check_mfx_allow_warn_warning() {
    let result = Error::check_mfx_allow_warn(sys::MFX_WRN_INCOMPATIBLE_VIDEO_PARAM, "mfx_func");
    assert!(result.is_ok());
}

#[test]
fn test_check_mfx_allow_warn_error() {
    let result = Error::check_mfx_allow_warn(sys::MFX_ERR_UNSUPPORTED, "mfx_func");
    assert!(result.is_err());
}

#[test]
fn warnings_are_errors_only_for_the_strict_check() {
    let warning = sys::MFX_WRN_DEVICE_BUSY;
    assert!(Error::check_mfx_allow_warn(warning, "mfx_func").is_ok());
    let error = Error::check_mfx(warning, "mfx_func").expect_err("a warning is no success");
    assert_eq!(error.status_code(), Some(2));
    assert_eq!(error.status_name(), Some("MFX_WRN_DEVICE_BUSY"));
    assert!(Error::check_mfx(i32::MIN, "f").is_err());
    assert!(Error::check_mfx_allow_warn(i32::MIN, "f").is_err());
    assert!(Error::check_mfx_allow_warn(i32::MAX, "f").is_ok());
}

#[test]
fn errors_without_a_known_status() {
    assert!(find_status(-999).is_none());
    let error = Error::from_mfx(-999, "mfx_func");
    assert_eq!(error.function(), "mfx_func");
    assert_eq!(error.status_code(), Some(-999));
    assert_eq!(error.status_name(), None);
    let custom = Error::new_custom_owned("f", "text".to_string());
    assert_eq!(custom.status_code(), None);
    assert_eq!(custom.status_name(), None);
    assert_eq!(custom.status_message(), Some("text"));
}

#[test]
fn a_message_can_be_replaced() {
    let error = Error::from_mfx(sys::MFX_ERR_NOT_FOUND, "MFXCreateSession")
        .with_message("nothing there".to_string());
    assert_eq!(error.status_name(), Some("MFX_ERR_NOT_FOUND"));
    assert_eq!(error.status_message(), Some("nothing there"));
    assert_eq!(
        error.to_string(),
        "MFXCreateSession() failed[status=-9]: nothing there (MFX_ERR_NOT_FOUND)"
    );
}

#[test]
fn known_statuses_have_names() {
    assert_eq!(
        find_status(sys::MFX_ERR_ABORTED).map(|(name, _)| name),
        Some("MFX_ERR_ABORTED")
    );
    assert_eq!(
        find_status(sys::MFX_ERR_UNSUPPORTED),
        Some((
            "MFX_ERR_UNSUPPORTED",
            "Unsupported feature or implementation"
        ))
    );
}
