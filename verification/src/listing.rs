//! Listing: a caller's tasks are returned newest-created-first.
//!
//! The store hands back the rows it holds; ordering them is this core's
//! rule, stated and proved here as a sort that keeps exactly the given
//! tasks and arranges them by descending creation time.

use vstd::prelude::*;
use vstd::multiset::Multiset;

use crate::model::Task;

verus! {

/// Non-increasing creation time: the newest-created task comes first.
pub open spec fn sorted_newest_first(s: Seq<Task>) -> bool {
    forall|i: int, j: int|
        #![trigger s[i], s[j]]
        0 <= i <= j < s.len() ==> s[i].created_at >= s[j].created_at
}

/// Order tasks newest-created-first. The result holds exactly the tasks
/// given, as a multiset, in non-increasing `created_at` order.
pub fn sort_newest_first(tasks: Vec<Task>) -> (r: Vec<Task>)
    ensures
        sorted_newest_first(r@),
        r@.to_multiset() == tasks@.to_multiset(),
        r@.len() == tasks@.len(),
{
    broadcast use vstd::seq_lib::group_to_multiset_ensures;
    broadcast use vstd::multiset::group_multiset_axioms;

    let mut input = tasks;
    let mut out: Vec<Task> = Vec::new();
    proof {
        assert(out@.to_multiset().add(input@.to_multiset()) =~= tasks@.to_multiset());
    }
    while input.len() > 0
        invariant
            sorted_newest_first(out@),
            out@.to_multiset().add(input@.to_multiset()) == tasks@.to_multiset(),
            out@.len() + input@.len() == tasks@.len(),
            forall|i: int, j: int|
                #![trigger out@[i], input@[j]]
                0 <= i < out@.len() && 0 <= j < input@.len() ==> out@[i].created_at
                    >= input@[j].created_at,
        decreases input@.len(),
    {
        let mut best: usize = 0;
        let mut k: usize = 1;
        while k < input.len()
            invariant
                input@.len() > 0,
                best < k,
                k <= input@.len(),
                forall|j: int| 0 <= j < k ==> (#[trigger] input@[j]).created_at
                    <= input@[best as int].created_at,
            decreases input@.len() - k,
        {
            if input[k].created_at > input[best].created_at {
                best = k;
            }
            k = k + 1;
        }
        let ghost input0 = input@;
        let ghost out0 = out@;
        let t = input.remove(best);
        out.push(t);
        proof {
            vstd::seq_lib::to_multiset_remove(input0, best as int);
            vstd::seq_lib::to_multiset_build(out0, t);
            assert(input0.contains(t));
            assert(input@.to_multiset() =~= input0.to_multiset().remove(t));
            assert(out@.to_multiset() =~= out0.to_multiset().insert(t));
            assert forall|x: Task|
                out@.to_multiset().add(input@.to_multiset()).count(x) == out0.to_multiset().add(
                    input0.to_multiset(),
                ).count(x) by {
                if x == t {
                    vstd::seq_lib::to_multiset_contains(input0, t);
                    assert(input0.to_multiset().count(t) > 0);
                }
            }
            assert(out@.to_multiset().add(input@.to_multiset()) =~= out0.to_multiset().add(
                input0.to_multiset(),
            ));
            assert forall|i: int, j: int|
                #![trigger out@[i], input@[j]]
                0 <= i < out@.len() && 0 <= j < input@.len() implies out@[i].created_at
                >= input@[j].created_at by {
                let j0 = if j < best {
                    j
                } else {
                    j + 1
                };
                assert(input@[j] == input0[j0]);
                if i < out0.len() {
                    assert(out@[i] == out0[i]);
                } else {
                    assert(out@[i] == t);
                }
            }
            assert forall|i: int, j: int|
                #![trigger out@[i], out@[j]]
                0 <= i <= j < out@.len() implies out@[i].created_at >= out@[j].created_at by {
                if j == out@.len() - 1 && i < j {
                    assert(out@[i] == out0[i]);
                    assert(out0[i].created_at >= input0[best as int].created_at);
                }
            }
        }
    }
    proof {
        assert(input@.to_multiset() =~= Multiset::<Task>::empty());
        assert(out@.to_multiset().add(Multiset::<Task>::empty()) =~= out@.to_multiset());
    }
    out
}

} // verus!
