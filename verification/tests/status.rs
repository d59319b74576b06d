use rkaiq::error::{XCamError, XCamResult, XCamReturn};

const KINDS: [(XCamReturn, i32, &str); 15] = [
    (XCamReturn::NoError, 0, "No Error"),
    (XCamReturn::Bypass, 1, "ByPass"),
    (XCamReturn::Failed, -1, "Failed"),
    (XCamReturn::Param, -2, "Bad Parameters"),
    (XCamReturn::Mem, -3, "No Memory"),
    (XCamReturn::File, -4, "File Error"),
    (XCamReturn::Analyzer, -5, "Analyzer Error"),
    (XCamReturn::Isp, -6, "ISP Error"),
    (XCamReturn::Sensor, -7, "Sensor Error"),
    (XCamReturn::Thread, -8, "Thread Error"),
    (XCamReturn::Ioctl, -9, "IOCTL Error"),
    (XCamReturn::Order, -10, "Wrong Order"),
    (XCamReturn::Timeout, -20, "Timeout"),
    (XCamReturn::OutOfRange, -21, "Out of Range"),
    (XCamReturn::Unknown, -255, "Unknown"),
];

#[test]
fn failed_timeout_and_unknown_codes() {
    assert_eq!(XCamError::from(-1), XCamError(XCamReturn::Failed));
    assert_eq!(XCamError::from(-20), XCamError(XCamReturn::Timeout));
    assert_eq!(XCamError::from(-99), XCamError(XCamReturn::Unknown));
}

#[test]
fn every_known_code_has_its_kind() {
    for (kind, code, _) in KINDS {
        assert_eq!(XCamReturn::from_code(code), kind);
        assert_eq!(XCamError::from(code).kind(), kind);
        assert_eq!(kind.code(), code);
        assert_eq!(XCamError::from(kind).code(), code);
    }
}

#[test]
fn codes_without_a_kind_are_unknown() {
    for code in [2, 3, 100, -11, -12, -19, -22, -100, -254, -256, i32::MAX, i32::MIN] {
        assert_eq!(XCamReturn::from_code(code), XCamReturn::Unknown);
        assert_eq!(XCamError::from(code).code(), -255);
    }
}

#[test]
fn kind_and_code_round_trip() {
    for code in -300..300 {
        let kind = XCamReturn::from_code(code);
        if kind != XCamReturn::Unknown {
            assert_eq!(kind.code(), code);
        }
        assert_eq!(XCamReturn::from_code(kind.code()), kind);
    }
}

#[test]
fn only_zero_is_a_success() {
    assert_eq!(XCamError::from(0).ok(), Ok(()));
    assert_eq!(XCamError::from(XCamReturn::NoError).ok(), Ok(()));
    assert_eq!(XCamError::from(1).ok(), Err(XCamError(XCamReturn::Bypass)));
    assert_eq!(XCamError::from(-1).ok(), Err(XCamError(XCamReturn::Failed)));
    assert_eq!(XCamError::from(-10).ok(), Err(XCamError(XCamReturn::Order)));
    assert_eq!(XCamError::from(-77).ok(), Err(XCamError(XCamReturn::Unknown)));
    for code in -300..300 {
        assert_eq!(XCamError::from(code).ok().is_ok(), code == 0);
    }
}

#[test]
fn a_query_returns_its_value_on_success_only() {
    let got: XCamResult<u32> = XCamError::from(0).ok_with(128);
    assert_eq!(got, Ok(128));
    let got: XCamResult<u32> = XCamError::from(-2).ok_with(128);
    assert_eq!(got, Err(XCamError(XCamReturn::Param)));
    let got: XCamResult<(bool, u32)> = XCamError::from(1).ok_with((true, 7));
    assert_eq!(got, Err(XCamError(XCamReturn::Bypass)));
    let got: XCamResult<String> = XCamError(XCamReturn::NoError).ok_with("gc2053".to_string());
    assert_eq!(got, Ok("gc2053".to_string()));
    for code in -300..300 {
        assert_eq!(XCamError::from(code).ok_with(code), XCamError::from(code).ok().map(|_| code));
    }
}

#[test]
fn descriptions() {
    for (kind, _, text) in KINDS {
        assert_eq!(kind.description(), text);
        assert_eq!(XCamError(kind).to_string(), text);
    }
    assert_eq!(XCamError::from(-20).to_string(), "Timeout");
    assert_eq!(XCamError::from(-1234).to_string(), "Unknown");
}
