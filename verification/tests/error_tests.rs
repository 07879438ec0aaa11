use hxcfe::error::{status_result, HxcfeError};

#[test]
fn error_codes_roundtrip() {
    for v in -6..=1 {
        let e = HxcfeError::n(v).expect("codes -6 to 1 name errors");
        assert_eq!(e.code(), v);
    }
    assert_eq!(HxcfeError::n(2), None);
    assert_eq!(HxcfeError::n(-7), None);
    assert_eq!(HxcfeError::n(-4), Some(HxcfeError::HXCFE_BADPARAMETER));
}

#[test]
fn unknown_status_is_internal_error() {
    assert_eq!(HxcfeError::from_status(-99), HxcfeError::HXCFE_INTERNALERROR);
    assert_eq!(HxcfeError::from_status(-2), HxcfeError::HXCFE_BADFILE);
    assert_eq!(HxcfeError::from_status(0), HxcfeError::HXCFE_NOERROR);
}

#[test]
fn status_result_is_ok_only_for_no_error() {
    assert_eq!(status_result(0), Ok(()));
    assert_eq!(status_result(1), Err(HxcfeError::HXCFE_VALIDFILE));
    assert_eq!(status_result(-1), Err(HxcfeError::HXCFE_ACCESSERROR));
    assert_eq!(status_result(12345), Err(HxcfeError::HXCFE_INTERNALERROR));
}

#[test]
fn error_names_match_debug() {
    for v in -6..=1 {
        let e = HxcfeError::n(v).unwrap();
        assert_eq!(e.name(), format!("{:?}", e));
    }
}
