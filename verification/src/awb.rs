//! The operating mode of the white balance.
use crate::native::{NativeOpMode, NativeWbOpMode};
use vstd::prelude::*;
use vstd::std_specs::convert::FromSpecImpl;

verus! {

/// Who sets the white balance. `Max` stands for every native value that is
/// neither manual nor automatic.
#[derive(Clone, Copy, Debug, PartialEq, Eq, Structural)]
pub enum WbOpMode {
    Manual,
    Auto,
    Max,
}

impl WbOpMode {
    /// The white balance mode that a general operating mode stands for: only
    /// automatic and manual have one of their own, every other is `Max`.
    pub open spec fn of_op_mode(val: NativeOpMode) -> WbOpMode {
        match val {
            NativeOpMode::OpAuto => WbOpMode::Auto,
            NativeOpMode::OpManual => WbOpMode::Manual,
            _ => WbOpMode::Max,
        }
    }

    /// The general operating mode that stands for this mode; `Max` becomes the
    /// invalid one.
    pub open spec fn op_mode(self) -> NativeOpMode {
        match self {
            WbOpMode::Manual => NativeOpMode::OpManual,
            WbOpMode::Auto => NativeOpMode::OpAuto,
            WbOpMode::Max => NativeOpMode::OpInval,
        }
    }

    /// The mode that a native white balance mode stands for.
    pub open spec fn of_native(val: NativeWbOpMode) -> WbOpMode {
        match val {
            NativeWbOpMode::Manual => WbOpMode::Manual,
            NativeWbOpMode::Auto => WbOpMode::Auto,
            NativeWbOpMode::Max => WbOpMode::Max,
        }
    }

    /// The native white balance mode that stands for this mode.
    pub open spec fn native(self) -> NativeWbOpMode {
        match self {
            WbOpMode::Manual => NativeWbOpMode::Manual,
            WbOpMode::Auto => NativeWbOpMode::Auto,
            WbOpMode::Max => NativeWbOpMode::Max,
        }
    }
}

impl From<NativeOpMode> for WbOpMode {
    fn from(val: NativeOpMode) -> (r: WbOpMode) {
        match val {
            NativeOpMode::OpAuto => WbOpMode::Auto,
            NativeOpMode::OpSemiAuto => WbOpMode::Max,
            NativeOpMode::OpManual => WbOpMode::Manual,
            _ => WbOpMode::Max,
        }
    }
}

impl FromSpecImpl<NativeOpMode> for WbOpMode {
    open spec fn obeys_from_spec() -> bool {
        true
    }

    open spec fn from_spec(val: NativeOpMode) -> WbOpMode {
        WbOpMode::of_op_mode(val)
    }
}

impl From<NativeWbOpMode> for WbOpMode {
    fn from(val: NativeWbOpMode) -> (r: WbOpMode) {
        match val {
            NativeWbOpMode::Manual => WbOpMode::Manual,
            NativeWbOpMode::Auto => WbOpMode::Auto,
            NativeWbOpMode::Max => WbOpMode::Max,
        }
    }
}

impl FromSpecImpl<NativeWbOpMode> for WbOpMode {
    open spec fn obeys_from_spec() -> bool {
        true
    }

    open spec fn from_spec(val: NativeWbOpMode) -> WbOpMode {
        WbOpMode::of_native(val)
    }
}

impl From<WbOpMode> for NativeOpMode {
    fn from(val: WbOpMode) -> (r: NativeOpMode) {
        match val {
            WbOpMode::Manual => NativeOpMode::OpManual,
            WbOpMode::Auto => NativeOpMode::OpAuto,
            WbOpMode::Max => NativeOpMode::OpInval,
        }
    }
}

impl FromSpecImpl<WbOpMode> for NativeOpMode {
    open spec fn obeys_from_spec() -> bool {
        true
    }

    open spec fn from_spec(val: WbOpMode) -> NativeOpMode {
        val.op_mode()
    }
}

impl From<WbOpMode> for NativeWbOpMode {
    fn from(val: WbOpMode) -> (r: NativeWbOpMode) {
        match val {
            WbOpMode::Manual => NativeWbOpMode::Manual,
            WbOpMode::Auto => NativeWbOpMode::Auto,
            WbOpMode::Max => NativeWbOpMode::Max,
        }
    }
}

impl FromSpecImpl<WbOpMode> for NativeWbOpMode {
    open spec fn obeys_from_spec() -> bool {
        true
    }

    open spec fn from_spec(val: WbOpMode) -> NativeWbOpMode {
        val.native()
    }
}

/// A white balance mode is found again from the general operating mode that
/// stands for it. The other way round only the automatic, the manual and the
/// invalid operating mode come back: the two remaining ones come back invalid.
pub proof fn lemma_wb_op_mode_through_op_mode(mode: WbOpMode, val: NativeOpMode)
    ensures
        WbOpMode::of_op_mode(mode.op_mode()) == mode,
        WbOpMode::of_op_mode(val).op_mode() == val <==> (val == NativeOpMode::OpAuto || val
            == NativeOpMode::OpManual || val == NativeOpMode::OpInval),
        WbOpMode::of_op_mode(val).op_mode() != val ==> WbOpMode::of_op_mode(val).op_mode()
            == NativeOpMode::OpInval,
{
}

/// Converting a white balance mode to its native value and back, or a native
/// value to its mode and back, changes nothing.
pub proof fn lemma_wb_op_mode_round_trip(mode: WbOpMode, val: NativeWbOpMode)
    ensures
        WbOpMode::of_native(mode.native()) == mode,
        WbOpMode::of_native(val).native() == val,
{
}

} // verus!
