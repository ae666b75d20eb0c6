//! The sample store: a sequence of durations kept sorted ascending, into which
//! the samples of each execution are merged.
use vstd::prelude::*;
use vstd::seq_lib::lemma_multiset_commutative;
use vstd::multiset::Multiset;
use crate::stats::sorted;

verus! {

/// The samples of all rounds, round after round, each in the order collected.
pub open spec fn round_samples(rounds: Seq<Vec<u64>>) -> Seq<u64> {
    rounds.map_values(|r: Vec<u64>| r@).flatten()
}

/// Every round holds exactly `width` samples.
pub open spec fn rounds_of_width(rounds: Seq<Vec<u64>>, width: int) -> bool {
    forall|k: int| 0 <= k < rounds.len() ==> #[trigger] rounds[k]@.len() == width
}

/// Inserts `x` into the sorted `v` after every sample not greater than it.
pub fn insert_sorted(v: &mut Vec<u64>, x: u64)
    requires
        sorted(old(v)@),
    ensures
        sorted(final(v)@),
        final(v)@.to_multiset() == old(v)@.to_multiset().insert(x),
        final(v)@.len() == old(v)@.len() + 1,
{
    let mut lo: usize = 0;
    let mut hi: usize = v.len();
    while lo < hi
        invariant
            lo <= hi <= v.len(),
            sorted(v@),
            forall|i: int| 0 <= i < lo ==> v@[i] <= x,
            forall|i: int| hi <= i < v@.len() ==> v@[i] > x,
        decreases hi - lo,
    {
        let mid = lo + (hi - lo) / 2;
        if v[mid] <= x {
            lo = mid + 1;
        } else {
            hi = mid;
        }
    }
    proof {
        vstd::seq_lib::to_multiset_insert(v@, lo as int, x);
        v@.insert_ensures(lo as int, x);
    }
    v.insert(lo, x);
}

/// Merges the samples of `rounds` into the sorted store.
pub fn merge_rounds(store: &mut Vec<u64>, rounds: &Vec<Vec<u64>>)
    requires
        sorted(old(store)@),
    ensures
        sorted(final(store)@),
        final(store)@.to_multiset() == old(store)@.to_multiset().add(
            round_samples(rounds@).to_multiset(),
        ),
        final(store)@.len() == old(store)@.len() + round_samples(rounds@).len(),
{
    broadcast use vstd::seq_lib::group_to_multiset_ensures;
    broadcast use vstd::multiset::group_multiset_axioms;
    let ghost base = store@;
    proof {
        assert(rounds@.take(0).map_values(|r: Vec<u64>| r@) =~= Seq::<Seq<u64>>::empty());
        assert(round_samples(rounds@.take(0)) =~= Seq::<u64>::empty());
        vstd::multiset::lemma_multiset_empty_len(Seq::<u64>::empty().to_multiset());
        assert(store@.to_multiset() =~= base.to_multiset().add(Seq::<u64>::empty().to_multiset()));
    }
    let mut k: usize = 0;
    while k < rounds.len()
        invariant
            k <= rounds.len(),
            sorted(store@),
            store@.to_multiset() == base.to_multiset().add(
                round_samples(rounds@.take(k as int)).to_multiset(),
            ),
        decreases rounds.len() - k,
    {
        let round = &rounds[k];
        let ghost done = round_samples(rounds@.take(k as int));
        proof {
            assert(round@.take(0) =~= Seq::<u64>::empty());
            round@.take(0).to_multiset_ensures();
            assert(round@.take(0).to_multiset().len() == 0);
            vstd::multiset::lemma_multiset_empty_len(round@.take(0).to_multiset());
            assert(round@.take(0).to_multiset() =~= Multiset::<u64>::empty());
            assert(store@.to_multiset() =~= base.to_multiset().add(done.to_multiset()).add(
                round@.take(0).to_multiset(),
            ));
        }
        let mut j: usize = 0;
        while j < round.len()
            invariant
                j <= round.len(),
                sorted(store@),
                store@.to_multiset() == base.to_multiset().add(done.to_multiset()).add(
                    round@.take(j as int).to_multiset(),
                ),
            decreases round.len() - j,
        {
            proof {
                assert(round@.take(j as int + 1) == round@.take(j as int).push(round@[j as int]));
                round@.take(j as int).to_multiset_ensures();
            }
            insert_sorted(store, round[j]);
            assert(store@.to_multiset() =~= base.to_multiset().add(done.to_multiset()).add(
                round@.take(j as int + 1).to_multiset(),
            ));
            j = j + 1;
        }
        proof {
            assert(round@.take(round@.len() as int) == round@);
            let views = rounds@.take(k as int).map_values(|r: Vec<u64>| r@);
            assert(rounds@.take(k as int + 1).map_values(|r: Vec<u64>| r@) == views.push(round@));
            views.lemma_flatten_push(round@);
            lemma_multiset_commutative(done, round@);
            assert(store@.to_multiset() =~= base.to_multiset().add(
                round_samples(rounds@.take(k as int + 1)).to_multiset(),
            ));
        }
        k = k + 1;
    }
    proof {
        assert(rounds@.take(rounds@.len() as int) == rounds@);
        store@.to_multiset_ensures();
        base.to_multiset_ensures();
        round_samples(rounds@).to_multiset_ensures();
    }
}

/// Rounds of `width` samples each hold `rounds × width` samples together.
pub proof fn lemma_round_samples_len(rounds: Seq<Vec<u64>>, width: int)
    requires
        rounds_of_width(rounds, width),
    ensures
        round_samples(rounds).len() == rounds.len() * width,
    decreases rounds.len(),
{
    if rounds.len() > 0 {
        let front = rounds.drop_last();
        assert(rounds_of_width(front, width)) by {
            assert forall|k: int| 0 <= k < front.len() implies #[trigger] front[k]@.len() == width by {
                assert(front[k] == rounds[k]);
            }
        }
        lemma_round_samples_len(front, width);
        let views = front.map_values(|r: Vec<u64>| r@);
        assert(rounds.map_values(|r: Vec<u64>| r@) == views.push(rounds.last()@));
        views.lemma_flatten_push(rounds.last()@);
        assert(round_samples(rounds) == round_samples(front) + rounds.last()@);
        assert(rounds.last()@.len() == width);
        assert(rounds.len() * width == front.len() * width + width) by (nonlinear_arith)
            requires rounds.len() == front.len() + 1;
    } else {
        assert(rounds.map_values(|r: Vec<u64>| r@) =~= Seq::<Seq<u64>>::empty());
        assert(round_samples(rounds) =~= Seq::<u64>::empty());
    }
}

} // verus!
