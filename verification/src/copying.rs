//! Copies of lists.

use vstd::prelude::*;

verus! {

/// Appends the items of `items` to `out`, in their order.
pub(crate) fn append_copies<T: Copy>(out: &mut Vec<T>, items: &[T])
    ensures
        final(out)@ == old(out)@ + items@,
{
    let mut i: usize = 0;
    while i < items.len()
        invariant
            i <= items.len(),
            out@ == old(out)@ + items@.take(i as int),
        decreases items.len() - i,
    {
        out.push(items[i]);
        assert(items@.take(i + 1) =~= items@.take(i as int).push(items@[i as int]));
        i += 1;
    }
    assert(items@.take(i as int) =~= items@);
}

/// A list of its own with the items of `items`, in their order.
pub(crate) fn copy_of<T: Copy>(items: &[T]) -> (r: Vec<T>)
    ensures
        r@ == items@,
{
    let mut r: Vec<T> = Vec::new();
    append_copies(&mut r, items);
    assert(r@ =~= items@);
    r
}

} // verus!
