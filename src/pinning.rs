use vstd::prelude::*;

verus! {

/// A peer is trusted only when the certificate it presents is, byte for byte, the one
/// pinned for it; no chain of trust is consulted.
pub fn certificate_matches(presented: &[u8], pinned: &[u8]) -> (r: bool)
    ensures
        r == (presented@ == pinned@),
{
    if presented.len() != pinned.len() {
        return false;
    }
    let mut i: usize = 0;
    while i < presented.len()
        invariant
            presented@.len() == pinned@.len(),
            i <= presented@.len(),
            presented@.subrange(0, i as int) == pinned@.subrange(0, i as int),
        decreases presented@.len() - i,
    {
        if presented[i] != pinned[i] {
            assert(presented@[i as int] != pinned@[i as int]);
            return false;
        }
        i = i + 1;
        assert(presented@.subrange(0, i as int) =~= pinned@.subrange(0, i as int)) by {
            assert(presented@.subrange(0, i - 1) == pinned@.subrange(0, i - 1));
            assert forall|k: int| 0 <= k < i implies presented@.subrange(0, i as int)[k]
                == pinned@.subrange(0, i as int)[k] by {
                if k < i - 1 {
                    assert(presented@.subrange(0, i - 1)[k] == pinned@.subrange(0, i - 1)[k]);
                }
            }
        }
    }
    assert(presented@ =~= presented@.subrange(0, i as int));
    assert(pinned@ =~= pinned@.subrange(0, i as int));
    true
}

} // verus!
