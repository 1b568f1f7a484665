//! Rules on the files of an output directory.

use vstd::prelude::*;

verus! {

/// The owner's write bit of a Unix file mode.
pub const OWNER_WRITE: u32 = 0o200;

/// The mode `mode` with the owner's write bit set and every other bit kept.
pub fn writable_mode(mode: u32) -> (r: u32)
    ensures
        r == mode | OWNER_WRITE,
        r & OWNER_WRITE == OWNER_WRITE,
        r & !OWNER_WRITE == mode & !OWNER_WRITE,
{
    let r = mode | OWNER_WRITE;
    assert(r & 0o200u32 == 0o200u32 && r & !0o200u32 == mode & !0o200u32) by (bit_vector)
        requires
            r == mode | 0o200u32,
    ;
    r
}

/// Which entries of an output directory the clean-up removes, given their
/// sizes in bytes: the positions of the empty ones, in increasing order.
/// Every empty entry is listed, and no other.
pub fn files_to_remove(sizes: &Vec<u64>) -> (r: Vec<usize>)
    ensures
        forall|k: int| 0 <= k < r.len() ==> r[k] < sizes.len() && sizes[r[k] as int] == 0,
        forall|i: int| 0 <= i < sizes.len() && sizes[i] == 0 ==> r@.contains(i as usize),
        forall|k: int, l: int| 0 <= k < l < r.len() ==> r[k] < r[l],
{
    let mut r: Vec<usize> = Vec::new();
    let mut i: usize = 0;
    while i < sizes.len()
        invariant
            i <= sizes.len(),
            forall|k: int| 0 <= k < r.len() ==> r[k] < i && sizes[r[k] as int] == 0,
            forall|j: int| 0 <= j < i && sizes[j] == 0 ==> r@.contains(j as usize),
            forall|k: int, l: int| 0 <= k < l < r.len() ==> r[k] < r[l],
        decreases sizes.len() - i,
    {
        let ghost before = r@;
        if sizes[i] == 0 {
            r.push(i);
        }
        proof {
            assert forall|j: int| 0 <= j < i + 1 && sizes[j] == 0 implies r@.contains(j as usize) by {
                if j == i {
                    assert(r@[r.len() - 1] == j as usize);
                } else {
                    assert(before.contains(j as usize));
                    let k = choose|k: int| 0 <= k < before.len() && before[k] == j as usize;
                    assert(r@[k] == j as usize);
                }
            }
        }
        i = i + 1;
    }
    r
}

} // verus!
