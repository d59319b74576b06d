use rkaiq::ae::{AeMeasAreaType, AeMode};
use rkaiq::awb::WbOpMode;
use rkaiq::native::{
    NativeAeMeasAreaType, NativeAeMode, NativeOpMode, NativeWbOpMode, NativeWorkingMode,
};
use rkaiq::types::{OpMode, WorkingMode};

#[test]
fn operating_modes() {
    let pairs = [
        (OpMode::Auto, NativeOpMode::OpAuto),
        (OpMode::Manual, NativeOpMode::OpManual),
        (OpMode::SemiAuto, NativeOpMode::OpSemiAuto),
        (OpMode::RegManual, NativeOpMode::OpRegManual),
        (OpMode::Invalid, NativeOpMode::OpInval),
    ];
    for (mode, native) in pairs {
        assert_eq!(OpMode::from(native), mode);
        assert_eq!(NativeOpMode::from(mode), native);
        let back: OpMode = NativeOpMode::from(mode).into();
        assert_eq!(back, mode);
    }
}

#[test]
fn working_modes() {
    let pairs = [
        (WorkingMode::Normal, NativeWorkingMode::Normal),
        (WorkingMode::IspHdr2, NativeWorkingMode::IspHdr2),
        (WorkingMode::IspHdr3, NativeWorkingMode::IspHdr3),
    ];
    for (mode, native) in pairs {
        assert_eq!(WorkingMode::from(native), mode);
        assert_eq!(NativeWorkingMode::from(mode), native);
    }
}

#[test]
fn exposure_modes() {
    let pairs = [
        (AeMode::Auto, NativeAeMode::AeAuto),
        (AeMode::IrisPrior, NativeAeMode::AeIrisPrior),
        (AeMode::ShutterPrior, NativeAeMode::AeShutterPrior),
    ];
    for (mode, native) in pairs {
        assert_eq!(AeMode::from(native), mode);
        assert_eq!(NativeAeMode::from(mode), native);
    }
}

#[test]
fn exposure_measuring_areas() {
    let pairs = [
        (AeMeasAreaType::Auto, NativeAeMeasAreaType::Auto),
        (AeMeasAreaType::Up, NativeAeMeasAreaType::Up),
        (AeMeasAreaType::Bottom, NativeAeMeasAreaType::Bottom),
        (AeMeasAreaType::Left, NativeAeMeasAreaType::Left),
        (AeMeasAreaType::Right, NativeAeMeasAreaType::Right),
        (AeMeasAreaType::Center, NativeAeMeasAreaType::Center),
    ];
    for (area, native) in pairs {
        assert_eq!(AeMeasAreaType::from(native), area);
        assert_eq!(NativeAeMeasAreaType::from(area), native);
    }
}

#[test]
fn white_balance_modes() {
    let pairs = [
        (WbOpMode::Manual, NativeWbOpMode::Manual),
        (WbOpMode::Auto, NativeWbOpMode::Auto),
        (WbOpMode::Max, NativeWbOpMode::Max),
    ];
    for (mode, native) in pairs {
        assert_eq!(WbOpMode::from(native), mode);
        assert_eq!(NativeWbOpMode::from(mode), native);
    }
}

#[test]
fn white_balance_from_operating_mode() {
    assert_eq!(WbOpMode::from(NativeOpMode::OpAuto), WbOpMode::Auto);
    assert_eq!(WbOpMode::from(NativeOpMode::OpManual), WbOpMode::Manual);
    assert_eq!(WbOpMode::from(NativeOpMode::OpSemiAuto), WbOpMode::Max);
    assert_eq!(WbOpMode::from(NativeOpMode::OpRegManual), WbOpMode::Max);
    assert_eq!(WbOpMode::from(NativeOpMode::OpInval), WbOpMode::Max);
}

#[test]
fn white_balance_to_operating_mode() {
    assert_eq!(NativeOpMode::from(WbOpMode::Auto), NativeOpMode::OpAuto);
    assert_eq!(NativeOpMode::from(WbOpMode::Manual), NativeOpMode::OpManual);
    assert_eq!(NativeOpMode::from(WbOpMode::Max), NativeOpMode::OpInval);
    for mode in [WbOpMode::Manual, WbOpMode::Auto, WbOpMode::Max] {
        assert_eq!(WbOpMode::from(NativeOpMode::from(mode)), mode);
    }
}
