//! The table of a manual gamma curve.
use vstd::prelude::*;

verus! {

/// Takes the table of a manual gamma curve, which has exactly 45 points. A slice
/// of any other length is no table.
pub fn curve_table(table: &[u16]) -> (curve: Option<[u16; 45]>)
    ensures
        curve is Some <==> table@.len() == 45,
        curve matches Some(c) ==> c@ == table@,
{
    if table.len() != 45 {
        return None;
    }
    let mut curve: [u16; 45] = [0u16; 45];
    let mut i: usize = 0;
    while i < 45
        invariant
            i <= 45,
            table@.len() == 45,
            forall|j: int| 0 <= j < i ==> curve@[j] == table@[j],
        decreases 45 - i,
    {
        curve[i] = table[i];
        i += 1;
    }
    assert(curve@ =~= table@);
    Some(curve)
}

} // verus!
