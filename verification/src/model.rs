//! The element-level meaning of the source-injection stage, stated over
//! mathematical sequences, with the laws the stage owes and a host-side
//! reference of the same rule for concrete checking.

use vstd::prelude::*;

verus! {

/// The element rule the add-source kernel applies: each cell of the target
/// field gains the corresponding cell of the source field.
pub open spec fn add_source_spec(base: Seq<int>, source: Seq<int>) -> Seq<int>
    recommends
        base.len() == source.len(),
{
    Seq::new(base.len(), |i: int| base[i] + source[i])
}

/// A field of `len` cells all holding zero.
pub open spec fn zero_field(len: nat) -> Seq<int> {
    Seq::new(len, |i: int| 0)
}

/// Law: injecting an all-zero source field changes nothing, so running the
/// add-source stage any number of times with a zero source leaves the target
/// field identical; stated here for one and for two consecutive runs.
pub proof fn lemma_add_source_zero_idempotent(field: Seq<int>, source: Seq<int>)
    requires
        source.len() == field.len(),
        forall|i: int| 0 <= i < source.len() ==> source[i] == 0,
    ensures
        add_source_spec(field, source) == field,
        add_source_spec(add_source_spec(field, source), source) == field,
{
    assert(add_source_spec(field, source) =~= field);
    assert(add_source_spec(add_source_spec(field, source), source) =~= field);
}

/// Host-side reference of the add-source element rule, cell by cell on one
/// channel: `target[i] += source[i]`.
pub fn add_source_reference(target: &mut Vec<i32>, source: &Vec<i32>)
    requires
        old(target)@.len() == source@.len(),
        forall|i: int| 0 <= i < source@.len()
            ==> i32::MIN <= #[trigger] (old(target)@[i] + source@[i]) <= i32::MAX,
    ensures
        final(target)@.len() == old(target)@.len(),
        forall|i: int| 0 <= i < final(target)@.len()
            ==> final(target)@[i] == old(target)@[i] + source@[i],
{
    let n = target.len();
    let mut i: usize = 0;
    while i < n
        invariant
            n == target@.len(),
            n == source@.len(),
            i <= n,
            forall|k: int| 0 <= k < n
                ==> i32::MIN <= #[trigger] (old(target)@[k] + source@[k]) <= i32::MAX,
            forall|k: int| i <= k < n ==> target@[k] == old(target)@[k],
            forall|k: int| 0 <= k < i ==> target@[k] == old(target)@[k] + source@[k],
        decreases n - i,
    {
        let sum = target[i] + source[i];
        target.set(i, sum);
        i = i + 1;
    }
}

} // verus!
