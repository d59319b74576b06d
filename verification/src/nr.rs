//! Switching a noise filter on and off.
use vstd::prelude::*;

verus! {

/// The operating mode of a noise filter, as far as switching reads it.
#[derive(Clone, Copy, Debug, PartialEq, Eq, Structural)]
pub enum NrOpMode {
    Auto,
    Manual,
    /// Any mode that is neither automatic nor manual.
    Other,
}

/// What a switch writes into the native attributes of a noise filter. The
/// attributes hold one enable flag in the automatic parameter set and one in the
/// manual set; each field here is the value to write into that flag, or `None`
/// where the flag is left as it is. A flag is 1 for on and 0 for off.
#[derive(Clone, Copy, Debug, PartialEq, Eq, Structural)]
pub struct NrSwitch {
    pub auto_en: Option<i32>,
    pub manual_en: Option<i32>,
}

impl NrSwitch {
    /// The flag that stands for `on`.
    pub open spec fn flag(on: bool) -> i32 {
        if on {
            1
        } else {
            0
        }
    }

    /// What switching a filter in `mode` writes: the flag of the parameter set
    /// that the mode runs on, and nothing else. In a mode that is neither
    /// automatic nor manual nothing is written.
    pub open spec fn spec_of(mode: NrOpMode, on: bool) -> NrSwitch {
        match mode {
            NrOpMode::Auto => NrSwitch { auto_en: Some(NrSwitch::flag(on)), manual_en: None },
            NrOpMode::Manual => NrSwitch { auto_en: None, manual_en: Some(NrSwitch::flag(on)) },
            NrOpMode::Other => NrSwitch { auto_en: None, manual_en: None },
        }
    }

    /// The two flags after the switch has been written over `auto_en` and
    /// `manual_en`.
    pub open spec fn written_over(self, auto_en: int, manual_en: int) -> (int, int) {
        (
            match self.auto_en {
                Some(flag) => flag as int,
                None => auto_en,
            },
            match self.manual_en {
                Some(flag) => flag as int,
                None => manual_en,
            },
        )
    }

    /// Decides what switching a filter on or off writes, from the mode that the
    /// filter is in.
    pub fn of(mode: NrOpMode, on: bool) -> (switch: NrSwitch)
        ensures
            switch == NrSwitch::spec_of(mode, on),
    {
        let flag: i32 = if on {
            1
        } else {
            0
        };
        match mode {
            NrOpMode::Auto => NrSwitch { auto_en: Some(flag), manual_en: None },
            NrOpMode::Manual => NrSwitch { auto_en: None, manual_en: Some(flag) },
            NrOpMode::Other => NrSwitch { auto_en: None, manual_en: None },
        }
    }
}

/// A switch writes at most one flag, and the last switch decides: two switches
/// in a row, in one mode, leave the flags as the second alone would.
pub proof fn lemma_last_switch_decides(
    mode: NrOpMode,
    first: bool,
    second: bool,
    auto_en: int,
    manual_en: int,
)
    ensures
        NrSwitch::spec_of(mode, first).auto_en is None || NrSwitch::spec_of(mode, first).manual_en
            is None,
        ({
            let once = NrSwitch::spec_of(mode, first).written_over(auto_en, manual_en);
            NrSwitch::spec_of(mode, second).written_over(once.0, once.1)
        }) == NrSwitch::spec_of(mode, second).written_over(auto_en, manual_en),
{
}

} // verus!
