//! Queues kept in a vector whose last element comes next.

use vstd::prelude::*;

verus! {

/// Puts `items` before everything that waits in `stack`: the first of them comes
/// next, in the order in which they stand.
pub fn put_in_front<T>(stack: &mut Vec<T>, items: Vec<T>)
    ensures
        final(stack)@.reverse() == items@ + old(stack)@.reverse(),
{
    let ghost all = items@;
    let ghost rest = stack@.reverse();
    let mut items = items;
    proof {
        assert(all.skip(all.len() as int) + rest =~= rest);
    }
    while items.len() > 0
        invariant
            items@.len() <= all.len(),
            items@ == all.take(items@.len() as int),
            stack@.reverse() == all.skip(items@.len() as int) + rest,
        decreases items@.len(),
    {
        let ghost left = items@.len();
        let ghost waiting = stack@.reverse();
        if let Some(last) = items.pop() {
            stack.push(last);
            proof {
                assert(last == all[left - 1]);
                assert(stack@.reverse() =~= seq![last] + waiting);
                assert(all.skip(left - 1) =~= seq![last] + all.skip(left as int));
                assert(stack@.reverse() =~= all.skip(left - 1) + rest);
                assert(items@ =~= all.take(left - 1));
            }
        }
    }
    proof {
        assert(all.skip(0) =~= all);
    }
}

} // verus!
