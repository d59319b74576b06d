//! Walking through the static information that the native library keeps of
//! each camera.
use crate::error::{XCamError, XCamReturn};
use vstd::prelude::*;

verus! {

/// The place in an enumeration of the cameras' static information.
///
/// The native library hands out one entry for each index from 0 on, and an
/// error for the first index that has none. The walk asks for `index`, tells
/// `advance` what the library answered, and stops at the first answer that is
/// no success.
#[derive(Clone, Copy, Debug)]
pub struct StaticMetas {
    index: i32,
}

impl View for StaticMetas {
    type V = int;

    /// The index that is asked for next.
    closed spec fn view(&self) -> int {
        self.index as int
    }
}

impl StaticMetas {
    /// A walk that starts at the first entry.
    pub fn new() -> (metas: StaticMetas)
        ensures
            metas@ == 0,
    {
        StaticMetas { index: 0 }
    }

    /// The index to ask the native library for.
    pub fn index(&self) -> (index: i32)
        ensures
            index as int == self@,
    {
        self.index
    }

    /// Takes the answer of the native library to the current index. A success
    /// yields the entry and moves on to the next index; any other answer ends the
    /// walk and leaves the index where it is.
    ///
    /// A success needs an index to move on to: the current one must be below
    /// `i32::MAX`.
    pub fn advance(&mut self, status: XCamError) -> (yielded: bool)
        requires
            status.0 == XCamReturn::NoError ==> old(self)@ < i32::MAX,
        ensures
            yielded == (status.0 == XCamReturn::NoError),
            final(self)@ == old(self)@ + if yielded { 1int } else { 0int },
    {
        match status.ok() {
            Ok(_) => {
                self.index = self.index + 1;
                true
            },
            Err(_) => false,
        }
    }
}

impl Default for StaticMetas {
    fn default() -> (metas: StaticMetas)
        ensures
            metas@ == 0,
    {
        StaticMetas::new()
    }
}

} // verus!
