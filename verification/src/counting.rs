//! Counting the entries of a list.
use crate::channel::ChannelView;
use crate::ordered::{in_order, lemma_filter_step, lemma_in_order};
use crate::state::StateView;
use vstd::prelude::*;

verus! {

/// The positions of a list whose entries pass.
pub open spec fn positions<T>(list: Seq<T>, keep: spec_fn(T) -> bool) -> Set<int> {
    Set::new(|i: int| 0 <= i < list.len() && keep(list[i]))
}

/// Filtering keeps as many entries as there are positions that pass.
pub proof fn lemma_filter_counts<T>(list: Seq<T>, keep: spec_fn(T) -> bool)
    ensures
        positions(list, keep).finite(),
        list.filter(keep).len() == positions(list, keep).len(),
    decreases list.len(),
{
    if list.len() == 0 {
        reveal(Seq::filter);
        assert(positions(list, keep) =~= Set::empty());
    } else {
        let n = list.len() - 1;
        let rest = list.take(n);
        lemma_filter_counts(rest, keep);
        lemma_filter_step(list, keep, n);
        assert(list.take(n + 1) =~= list);
        if keep(list[n]) {
            assert(positions(list, keep) =~= positions(rest, keep).insert(n));
        } else {
            assert(positions(list, keep) =~= positions(rest, keep));
        }
    }
}

/// Filtering twice keeps what passes both.
pub proof fn lemma_filter_twice<T>(
    list: Seq<T>,
    first: spec_fn(T) -> bool,
    second: spec_fn(T) -> bool,
    both: spec_fn(T) -> bool,
)
    requires
        forall|item: T| #[trigger] both(item) <==> first(item) && second(item),
    ensures
        list.filter(first).filter(second) == list.filter(both),
    decreases list.len(),
{
    reveal(Seq::filter);
    if list.len() > 0 {
        let rest = list.drop_last();
        let last = list.last();
        lemma_filter_twice(rest, first, second, both);
        assert(both(last) <==> first(last) && second(last));
        if first(last) {
            let kept = rest.filter(first);
            assert(kept.push(last).drop_last() =~= kept);
            assert(kept.push(last).last() == last);
        }
    }
}

/// The ids under which channels are filed that pass.
pub open spec fn channel_ids(state: StateView, keep: spec_fn(ChannelView) -> bool) -> Set<u64> {
    Set::new(|id: u64| state.channels.contains_key(id) && keep(state.channels[id]))
}

/// The filtered list of channels is as long as there are channels that pass.
pub proof fn lemma_channels_count(state: StateView, keep: spec_fn(ChannelView) -> bool)
    requires
        state.channels.dom().finite(),
    ensures
        state.channel_list().filter(keep).len() == channel_ids(state, keep).len(),
{
    let keys = in_order(state.channels.dom());
    let list = state.channel_list();
    lemma_in_order(state.channels.dom());
    lemma_filter_counts(list, keep);
    let places = positions(list, keep);
    let ids = channel_ids(state, keep);
    assert(ids.subset_of(state.channels.dom()));
    vstd::set_lib::lemma_len_subset(ids, state.channels.dom());
    let key = |i: int| keys[i];
    assert(vstd::relations::injective_on(key, places)) by {
        assert forall|a: int, b: int|
            places.contains(a) && places.contains(b) && #[trigger] key(a) == #[trigger] key(b)
            implies a == b by {
            if a < b {
                assert(keys[a] < keys[b]);
            }
            if b < a {
                assert(keys[b] < keys[a]);
            }
        }
    }
    assert(places.map(key) =~= ids) by {
        assert forall|id: u64| #[trigger] ids.contains(id) implies places.map(key).contains(id) by {
            assert(state.channels.dom().contains(id));
            let i = choose|i: int| 0 <= i < keys.len() && keys[i] == id;
            assert(list[i] == state.channels[id]);
            assert(places.contains(i));
            assert(key(i) == id);
        }
        assert forall|id: u64| #[trigger] places.map(key).contains(id) implies ids.contains(id) by {
            let i = choose|i: int| places.contains(i) && key(i) == id;
            assert(state.channels.dom().contains(keys[i]));
            assert(list[i] == state.channels[id]);
        }
    }
    vstd::set_lib::lemma_map_size(places, ids, key);
}

} // verus!
