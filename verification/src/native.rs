//! The enumerations of the native interface, value by value.
//!
//! Each type here lists the values of one native enumeration under the names
//! that the native headers give them. The typed enumerations of the binding are
//! converted to and from these; only the caller of the native library turns them
//! into the integers that cross the boundary.
use vstd::prelude::*;

verus! {

/// `opMode_t`: how far an algorithm runs by itself.
#[derive(Clone, Copy, Debug, PartialEq, Eq, Structural)]
pub enum NativeOpMode {
    /// `OP_AUTO`
    OpAuto,
    /// `OP_MANUAL`
    OpManual,
    /// `OP_SEMI_AUTO`
    OpSemiAuto,
    /// `OP_REG_MANUAL`
    OpRegManual,
    /// `OP_INVAL`
    OpInval,
}

/// `rk_aiq_working_mode_t`: how many exposures make one frame.
#[derive(Clone, Copy, Debug, PartialEq, Eq, Structural)]
pub enum NativeWorkingMode {
    /// `RK_AIQ_WORKING_MODE_NORMAL`
    Normal,
    /// `RK_AIQ_WORKING_MODE_ISP_HDR2`
    IspHdr2,
    /// `RK_AIQ_WORKING_MODE_ISP_HDR3`
    IspHdr3,
}

/// `aeMode_t`: what the exposure control gives priority to.
#[derive(Clone, Copy, Debug, PartialEq, Eq, Structural)]
pub enum NativeAeMode {
    /// `AE_AUTO`
    AeAuto,
    /// `AE_IRIS_PRIOR`
    AeIrisPrior,
    /// `AE_SHUTTER_PRIOR`
    AeShutterPrior,
}

/// `aeMeasAreaType_e`: the part of the picture that the exposure is measured in.
#[derive(Clone, Copy, Debug, PartialEq, Eq, Structural)]
pub enum NativeAeMeasAreaType {
    /// `AE_MEAS_AREA_AUTO`
    Auto,
    /// `AE_MEAS_AREA_UP`
    Up,
    /// `AE_MEAS_AREA_BOTTOM`
    Bottom,
    /// `AE_MEAS_AREA_LEFT`
    Left,
    /// `AE_MEAS_AREA_RIGHT`
    Right,
    /// `AE_MEAS_AREA_CENTER`
    Center,
}

/// `rk_aiq_wb_op_mode_t`: who sets the white balance.
#[derive(Clone, Copy, Debug, PartialEq, Eq, Structural)]
pub enum NativeWbOpMode {
    /// `RK_AIQ_WB_MODE_MANUAL`
    Manual,
    /// `RK_AIQ_WB_MODE_AUTO`
    Auto,
    /// `RK_AIQ_WB_MODE_MAX`
    Max,
}

} // verus!
