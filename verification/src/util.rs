use vstd::prelude::*;

verus! {

/// Linear membership test on a byte vector, as the failure sets of the GPIO
/// and I2C mocks use one.
pub(crate) fn contains_byte(v: &Vec<u8>, x: u8) -> (b: bool)
    ensures
        b == v@.contains(x),
{
    let mut i: usize = 0;
    while i < v.len()
        invariant
            i <= v@.len(),
            forall|j: int| 0 <= j < i ==> v@[j] != x,
        decreases v@.len() - i,
    {
        if v[i] == x {
            return true;
        }
        i += 1;
    }
    false
}

} // verus!
