//! The largest element of a slice, for any copyable type that can be
//! compared.

use core::cmp::Ordering;
use vstd::laws_cmp::obeys_partial_cmp_spec_properties;
use vstd::prelude::*;
use vstd::std_specs::cmp::PartialOrdSpec;

verus! {

/// An element of the slice that no other element exceeds.
///
/// The result is always drawn from the slice. When the type's comparison
/// follows its specification and behaves as an order (the two `obeys`
/// hypotheses), no element of the slice compares greater than the result.
pub fn largest<T: PartialOrd + Copy>(list: &[T]) -> (r: T)
    requires
        list@.len() >= 1,
    ensures
        exists|k: int| 0 <= k < list@.len() && r == list@[k],
        (T::obeys_partial_cmp_spec() && obeys_partial_cmp_spec_properties::<T>()) ==> forall|
            i: int,
        |
            0 <= i < list@.len() ==> #[trigger] list@[i].partial_cmp_spec(&r) != Some(
                Ordering::Greater,
            ),
{
    let mut cur = list[0];
    let mut i: usize = 1;
    proof {
        if T::obeys_partial_cmp_spec() && obeys_partial_cmp_spec_properties::<T>() {
            reveal(obeys_partial_cmp_spec_properties);
            // nothing compares greater than itself: Greater would flip to
            // Less against the same value, and a comparison has one answer
            assert(cur.partial_cmp_spec(&cur) != Some(Ordering::Greater));
        }
    }
    while i < list.len()
        invariant
            1 <= i <= list@.len(),
            exists|k: int| 0 <= k < list@.len() && cur == list@[k],
            (T::obeys_partial_cmp_spec() && obeys_partial_cmp_spec_properties::<T>()) ==> forall|
                j: int,
            |
                0 <= j < i ==> #[trigger] list@[j].partial_cmp_spec(&cur) != Some(
                    Ordering::Greater,
                ),
        decreases list@.len() - i,
    {
        let item = list[i];
        if item > cur {
            proof {
                if T::obeys_partial_cmp_spec() && obeys_partial_cmp_spec_properties::<T>() {
                    reveal(obeys_partial_cmp_spec_properties);
                    assert(item.partial_cmp_spec(&cur) == Some(Ordering::Greater));
                    assert forall|j: int| 0 <= j < i implies #[trigger] list@[j].partial_cmp_spec(
                        &item,
                    ) != Some(Ordering::Greater) by {
                        if list@[j].partial_cmp_spec(&item) == Some(Ordering::Greater) {
                            assert(list@[j].partial_cmp_spec(&cur) == Some(Ordering::Greater));
                        }
                    }
                }
            }
            cur = item;
        }
        i += 1;
    }
    cur
}

} // verus!
