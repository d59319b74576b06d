//! The enumerations of the automatic exposure control.
use crate::native::{NativeAeMeasAreaType, NativeAeMode};
use vstd::prelude::*;
use vstd::std_specs::convert::FromSpecImpl;

verus! {

/// What the exposure control gives priority to.
#[derive(Clone, Copy, Debug, PartialEq, Eq, Structural)]
pub enum AeMode {
    Auto,
    IrisPrior,
    ShutterPrior,
}

impl AeMode {
    /// The mode that a native value stands for.
    pub open spec fn of_native(val: NativeAeMode) -> AeMode {
        match val {
            NativeAeMode::AeAuto => AeMode::Auto,
            NativeAeMode::AeIrisPrior => AeMode::IrisPrior,
            NativeAeMode::AeShutterPrior => AeMode::ShutterPrior,
        }
    }

    /// The native value that stands for this mode.
    pub open spec fn native(self) -> NativeAeMode {
        match self {
            AeMode::Auto => NativeAeMode::AeAuto,
            AeMode::IrisPrior => NativeAeMode::AeIrisPrior,
            AeMode::ShutterPrior => NativeAeMode::AeShutterPrior,
        }
    }
}

impl From<NativeAeMode> for AeMode {
    fn from(val: NativeAeMode) -> (r: AeMode) {
        match val {
            NativeAeMode::AeAuto => AeMode::Auto,
            NativeAeMode::AeIrisPrior => AeMode::IrisPrior,
            NativeAeMode::AeShutterPrior => AeMode::ShutterPrior,
        }
    }
}

impl FromSpecImpl<NativeAeMode> for AeMode {
    open spec fn obeys_from_spec() -> bool {
        true
    }

    open spec fn from_spec(val: NativeAeMode) -> AeMode {
        AeMode::of_native(val)
    }
}

impl From<AeMode> for NativeAeMode {
    fn from(val: AeMode) -> (r: NativeAeMode) {
        match val {
            AeMode::Auto => NativeAeMode::AeAuto,
            AeMode::IrisPrior => NativeAeMode::AeIrisPrior,
            AeMode::ShutterPrior => NativeAeMode::AeShutterPrior,
        }
    }
}

impl FromSpecImpl<AeMode> for NativeAeMode {
    open spec fn obeys_from_spec() -> bool {
        true
    }

    open spec fn from_spec(val: AeMode) -> NativeAeMode {
        val.native()
    }
}

/// Converting an exposure mode to its native value and back, or a native value
/// to its mode and back, changes nothing.
pub proof fn lemma_ae_mode_round_trip(mode: AeMode, val: NativeAeMode)
    ensures
        AeMode::of_native(mode.native()) == mode,
        AeMode::of_native(val).native() == val,
{
}

/// The part of the picture that the exposure is measured in.
#[derive(Clone, Copy, Debug, PartialEq, Eq, Structural)]
pub enum AeMeasAreaType {
    Auto,
    Up,
    Bottom,
    Left,
    Right,
    Center,
}

impl AeMeasAreaType {
    /// The area that a native value stands for.
    pub open spec fn of_native(val: NativeAeMeasAreaType) -> AeMeasAreaType {
        match val {
            NativeAeMeasAreaType::Auto => AeMeasAreaType::Auto,
            NativeAeMeasAreaType::Up => AeMeasAreaType::Up,
            NativeAeMeasAreaType::Bottom => AeMeasAreaType::Bottom,
            NativeAeMeasAreaType::Left => AeMeasAreaType::Left,
            NativeAeMeasAreaType::Right => AeMeasAreaType::Right,
            NativeAeMeasAreaType::Center => AeMeasAreaType::Center,
        }
    }

    /// The native value that stands for this area.
    pub open spec fn native(self) -> NativeAeMeasAreaType {
        match self {
            AeMeasAreaType::Auto => NativeAeMeasAreaType::Auto,
            AeMeasAreaType::Up => NativeAeMeasAreaType::Up,
            AeMeasAreaType::Bottom => NativeAeMeasAreaType::Bottom,
            AeMeasAreaType::Left => NativeAeMeasAreaType::Left,
            AeMeasAreaType::Right => NativeAeMeasAreaType::Right,
            AeMeasAreaType::Center => NativeAeMeasAreaType::Center,
        }
    }
}

impl From<NativeAeMeasAreaType> for AeMeasAreaType {
    fn from(val: NativeAeMeasAreaType) -> (r: AeMeasAreaType) {
        match val {
            NativeAeMeasAreaType::Auto => AeMeasAreaType::Auto,
            NativeAeMeasAreaType::Up => AeMeasAreaType::Up,
            NativeAeMeasAreaType::Bottom => AeMeasAreaType::Bottom,
            NativeAeMeasAreaType::Left => AeMeasAreaType::Left,
            NativeAeMeasAreaType::Right => AeMeasAreaType::Right,
            NativeAeMeasAreaType::Center => AeMeasAreaType::Center,
        }
    }
}

impl FromSpecImpl<NativeAeMeasAreaType> for AeMeasAreaType {
    open spec fn obeys_from_spec() -> bool {
        true
    }

    open spec fn from_spec(val: NativeAeMeasAreaType) -> AeMeasAreaType {
        AeMeasAreaType::of_native(val)
    }
}

impl From<AeMeasAreaType> for NativeAeMeasAreaType {
    fn from(val: AeMeasAreaType) -> (r: NativeAeMeasAreaType) {
        match val {
            AeMeasAreaType::Auto => NativeAeMeasAreaType::Auto,
            AeMeasAreaType::Up => NativeAeMeasAreaType::Up,
            AeMeasAreaType::Bottom => NativeAeMeasAreaType::Bottom,
            AeMeasAreaType::Left => NativeAeMeasAreaType::Left,
            AeMeasAreaType::Right => NativeAeMeasAreaType::Right,
            AeMeasAreaType::Center => NativeAeMeasAreaType::Center,
        }
    }
}

impl FromSpecImpl<AeMeasAreaType> for NativeAeMeasAreaType {
    open spec fn obeys_from_spec() -> bool {
        true
    }

    open spec fn from_spec(val: AeMeasAreaType) -> NativeAeMeasAreaType {
        val.native()
    }
}

/// Converting a measuring area to its native value and back, or a native value
/// to its area and back, changes nothing.
pub proof fn lemma_ae_meas_area_round_trip(area: AeMeasAreaType, val: NativeAeMeasAreaType)
    ensures
        AeMeasAreaType::of_native(area.native()) == area,
        AeMeasAreaType::of_native(val).native() == val,
{
}

} // verus!
