//! The list of a tier's Pokémon, and the random pick of one whose set is not done.

use vstd::prelude::*;

verus! {

/// The ids of the listed Pokémon whose set is not done, in list order.
pub open spec fn incomplete_ids(list: Seq<(usize, String, bool)>) -> Seq<usize>
    decreases list.len(),
{
    if list.len() == 0 {
        Seq::empty()
    } else {
        let last = list.last();
        incomplete_ids(list.drop_last()) + if !last.2 {
            seq![last.0]
        } else {
            Seq::empty()
        }
    }
}

/// The ids of the listed Pokémon whose set is not done, in list order.
pub fn incomplete_ids_of(list: &Vec<(usize, String, bool)>) -> (r: Vec<usize>)
    ensures
        r@ == incomplete_ids(list@),
{
    let mut r: Vec<usize> = Vec::new();
    let n = list.len();
    let mut i: usize = 0;
    while i < n
        invariant
            n == list@.len(),
            i <= n,
            r@ == incomplete_ids(list@.take(i as int)),
        decreases n - i,
    {
        assert(list@.take(i + 1).drop_last() =~= list@.take(i as int));
        assert(list@.take(i + 1).last() == list@[i as int]);
        if !list[i].2 {
            r.push(list[i].0);
        } else {
            assert(r@ =~= r@ + Seq::<usize>::empty());
        }
        i = i + 1;
    }
    assert(list@.take(n as int) =~= list@);
    r
}

/// Calls `IteratorRandom::choose` on `0..n` with the thread's generator: one
/// index below `n` taken at random, or `None` when `n` is 0. Which index comes
/// back depends on chance and is not stated.
#[verifier::external_body]
fn random_index(n: usize) -> (r: Option<usize>)
    ensures
        r is None <==> n == 0,
        r matches Some(k) ==> k < n,
{
    rand::seq::IteratorRandom::choose(0..n, &mut rand::thread_rng())
}

/// The id of the `k`-th listed Pokémon whose set is not done (counting from 0).
pub fn incomplete_id_at(list: &Vec<(usize, String, bool)>, k: usize) -> (r: usize)
    requires
        k < incomplete_ids(list@).len(),
    ensures
        r == incomplete_ids(list@)[k as int],
{
    let mut seen: usize = 0;
    let n = list.len();
    let mut i: usize = 0;
    while i < n
        invariant
            n == list@.len(),
            i <= n,
            seen == incomplete_ids(list@.take(i as int)).len(),
            seen <= k,
            k < incomplete_ids(list@).len(),
            forall|m: int| 0 <= m < seen ==> #[trigger] incomplete_ids(list@.take(i as int))[m]
                == incomplete_ids(list@)[m],
        decreases n - i,
    {
        proof {
            lemma_incomplete_prefix(list@, i as int + 1);
        }
        assert(list@.take(i + 1).drop_last() =~= list@.take(i as int));
        assert(list@.take(i + 1).last() == list@[i as int]);
        if !list[i].2 {
            if seen == k {
                assert(incomplete_ids(list@.take(i + 1)) =~= incomplete_ids(list@.take(i as int))
                    + seq![list@[i as int].0]);
                assert(incomplete_ids(list@.take(i + 1))[seen as int] == list@[i as int].0);
                return list[i].0;
            }
            seen = seen + 1;
        }
        i = i + 1;
    }
    assert(list@.take(n as int) =~= list@);
    // not reached: fewer than `k + 1` sets are not done would contradict `requires`
    0
}

/// The ids of a prefix of the list are a prefix of the ids of the list.
proof fn lemma_incomplete_prefix(list: Seq<(usize, String, bool)>, j: int)
    requires
        0 <= j <= list.len(),
    ensures
        incomplete_ids(list.take(j)).len() <= incomplete_ids(list).len(),
        forall|m: int| 0 <= m < incomplete_ids(list.take(j)).len() ==> #[trigger] incomplete_ids(
            list.take(j),
        )[m] == incomplete_ids(list)[m],
    decreases list.len(),
{
    if j == list.len() {
        assert(list.take(j) =~= list);
    } else {
        assert(list.drop_last().take(j) =~= list.take(j));
        lemma_incomplete_prefix(list.drop_last(), j);
    }
}

/// The id of a listed Pokémon whose set is not done, picked at random; `None`
/// when every listed set is done.
pub fn random_incomplete(list: &Vec<(usize, String, bool)>) -> (r: Option<usize>)
    ensures
        r is None <==> incomplete_ids(list@).len() == 0,
        r matches Some(id) ==> incomplete_ids(list@).contains(id),
{
    let ids = incomplete_ids_of(list);
    match random_index(ids.len()) {
        Some(k) => Some(incomplete_id_at(list, k)),
        None => None,
    }
}

} // verus!
