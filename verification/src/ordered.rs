//! Walking a map in the order of its keys.
use std::collections::BTreeMap;
use vstd::prelude::*;
use vstd::std_specs::btree::*;
use vstd::std_specs::cmp::OrdSpec;
use vstd::std_specs::iter::IteratorSpec;

verus! {

/// `keys` lists every member of `dom` once, from the smallest to the largest.
pub open spec fn lists_in_order(keys: Seq<u64>, dom: Set<u64>) -> bool {
    &&& forall|i: int, j: int| 0 <= i < j < keys.len() ==> keys[i] < keys[j]
    &&& forall|i: int| 0 <= i < keys.len() ==> dom.contains(#[trigger] keys[i])
    &&& forall|k: u64| #[trigger] dom.contains(k) ==> keys.contains(k)
}

/// The members of `dom` from the smallest to the largest.
pub open spec fn in_order(dom: Set<u64>) -> Seq<u64> {
    choose|keys: Seq<u64>| lists_in_order(keys, dom)
}

/// Two ordered listings of the same set agree on the first `n` entries.
proof fn lemma_listing_prefix_unique(a: Seq<u64>, b: Seq<u64>, dom: Set<u64>, n: int)
    requires
        lists_in_order(a, dom),
        lists_in_order(b, dom),
        0 <= n <= a.len(),
        n <= b.len(),
    ensures
        a.take(n) == b.take(n),
    decreases n,
{
    if n > 0 {
        lemma_listing_prefix_unique(a, b, dom, n - 1);
        let x = a[n - 1];
        let y = b[n - 1];
        let i = choose|i: int| 0 <= i < b.len() && b[i] == x;
        let j = choose|j: int| 0 <= j < a.len() && a[j] == y;
        assert(b.contains(x) && a.contains(y));
        if i < n - 1 {
            assert(a.take(n - 1)[i] == b.take(n - 1)[i]);
            assert(false);
        }
        if j < n - 1 {
            assert(a.take(n - 1)[j] == b.take(n - 1)[j]);
            assert(false);
        }
        assert(x == y);
        assert forall|k: int| 0 <= k < n implies a[k] == b[k] by {
            if k < n - 1 {
                assert(a.take(n - 1)[k] == b.take(n - 1)[k]);
            }
        }
        assert(a.take(n) =~= b.take(n));
    } else {
        assert(a.take(n) =~= b.take(n));
    }
}

/// Of two ordered listings of the same set, the shorter one is the longer one.
proof fn lemma_shorter_listing_same(a: Seq<u64>, b: Seq<u64>, dom: Set<u64>)
    requires
        lists_in_order(a, dom),
        lists_in_order(b, dom),
        a.len() <= b.len(),
    ensures
        a == b,
{
    let n = a.len() as int;
    lemma_listing_prefix_unique(a, b, dom, n);
    if n < b.len() {
        let y = b[n];
        assert(a.contains(y));
        let j = choose|j: int| 0 <= j < a.len() && a[j] == y;
        assert(a.take(n)[j] == b.take(n)[j]);
        assert(false);
    }
    assert(a.take(n) =~= a);
    assert(b.take(n) =~= b);
}

/// A set has one ordered listing.
pub proof fn lemma_listing_unique(a: Seq<u64>, b: Seq<u64>, dom: Set<u64>)
    requires
        lists_in_order(a, dom),
        lists_in_order(b, dom),
    ensures
        a == b,
{
    if a.len() <= b.len() {
        lemma_shorter_listing_same(a, b, dom);
    } else {
        lemma_shorter_listing_same(b, a, dom);
    }
}

/// The ordered listing of a finite set exists.
pub proof fn lemma_in_order(dom: Set<u64>)
    requires
        dom.finite(),
    ensures
        lists_in_order(in_order(dom), dom),
    decreases dom.len(),
{
    if dom.len() == 0 {
        assert(lists_in_order(Seq::<u64>::empty(), dom));
    } else {
        let leq = |a: u64, b: u64| a <= b;
        let top = dom.find_unique_maximal(leq);
        dom.find_unique_maximal_ensures(leq);
        let rest = dom.remove(top);
        lemma_in_order(rest);
        let keys = in_order(rest).push(top);
        assert forall|k: u64| #[trigger] dom.contains(k) implies keys.contains(k) by {
            if k == top {
                assert(keys[keys.len() - 1] == k);
            } else {
                assert(rest.contains(k));
                let i = choose|i: int| 0 <= i < in_order(rest).len() && in_order(rest)[i] == k;
                assert(keys[i] == k);
            }
        }
        assert forall|i: int, j: int| 0 <= i < j < keys.len() implies keys[i] < keys[j] by {
            if j == keys.len() - 1 {
                assert(rest.contains(in_order(rest)[i]));
                let a = keys[i];
                assert(dom.contains(a) && a != top);
                assert(leq(top, a) ==> leq(a, top));
            }
        }
        assert(lists_in_order(keys, dom));
    }
}

/// Filtering one entry more appends that entry where it passes.
pub proof fn lemma_filter_step<T>(list: Seq<T>, keep: spec_fn(T) -> bool, n: int)
    requires
        0 <= n < list.len(),
    ensures
        list.take(n + 1).filter(keep) == if keep(list[n]) {
            list.take(n).filter(keep).push(list[n])
        } else {
            list.take(n).filter(keep)
        },
{
    reveal(Seq::filter);
    assert(list.take(n + 1).drop_last() =~= list.take(n));
}

/// A filtered list holds what the list holds and the filter lets pass.
pub proof fn lemma_filter_holds<T>(list: Seq<T>, keep: spec_fn(T) -> bool, item: T)
    ensures
        list.filter(keep).contains(item) <==> list.contains(item) && keep(item),
    decreases list.len(),
{
    reveal(Seq::filter);
    if list.len() > 0 {
        let rest = list.drop_last();
        lemma_filter_holds(rest, keep, item);
        let kept = rest.filter(keep);
        assert(list =~= rest.push(list.last()));
        assert(list.contains(item) <==> rest.contains(item) || item == list.last()) by {
            if rest.contains(item) {
                let i = choose|i: int| 0 <= i < rest.len() && rest[i] == item;
                assert(list[i] == item);
            }
            if item == list.last() {
                assert(list[list.len() - 1] == item);
            }
        }
        let longer = kept.push(list.last());
        assert(longer.contains(item) <==> kept.contains(item) || item == list.last()) by {
            if kept.contains(item) {
                let i = choose|i: int| 0 <= i < kept.len() && kept[i] == item;
                assert(longer[i] == item);
            }
            if item == list.last() {
                assert(longer[longer.len() - 1] == item);
            }
        }
    }
}

/// Filters that agree on every entry keep the same entries.
pub proof fn lemma_filter_same<T>(list: Seq<T>, keep: spec_fn(T) -> bool, other: spec_fn(T) -> bool)
    requires
        forall|i: int| 0 <= i < list.len() ==> keep(#[trigger] list[i]) == other(list[i]),
    ensures
        list.filter(keep) == list.filter(other),
    decreases list.len(),
{
    reveal(Seq::filter);
    if list.len() > 0 {
        let rest = list.drop_last();
        assert forall|i: int| 0 <= i < rest.len() implies keep(#[trigger] rest[i]) == other(
            rest[i],
        ) by {
            assert(rest[i] == list[i]);
        }
        lemma_filter_same(rest, keep, other);
        assert(list.last() == list[list.len() - 1]);
    }
}

/// Two filters that divide what a third one keeps keep as many entries together.
pub proof fn lemma_filter_divides<T>(
    list: Seq<T>,
    whole: spec_fn(T) -> bool,
    one: spec_fn(T) -> bool,
    other: spec_fn(T) -> bool,
)
    requires
        forall|item: T| #[trigger] whole(item) <==> one(item) || other(item),
        forall|item: T| !(#[trigger] one(item) && other(item)),
    ensures
        list.filter(one).len() + list.filter(other).len() == list.filter(whole).len(),
    decreases list.len(),
{
    reveal(Seq::filter);
    if list.len() > 0 {
        lemma_filter_divides(list.drop_last(), whole, one, other);
        assert(whole(list.last()) || !whole(list.last()));
        assert(one(list.last()) || !one(list.last()));
    }
}

/// The keys of `map` from the smallest to the largest.
pub fn keys_in_order<V>(map: &BTreeMap<u64, V>) -> (keys: Vec<u64>)
    ensures
        keys@ == in_order(map@.dom()),
        lists_in_order(keys@, map@.dom()),
{
    broadcast use group_btree_axioms;
    broadcast use vstd::laws_cmp::group_laws_cmp;

    let mut keys: Vec<u64> = Vec::new();
    assert(key_obeys_cmp_spec::<u64>());
    for pair in it: map.iter()
        invariant
            it.seq() == map.iter().remaining(),
            increasing_seq(it.seq().map_values(|kv: (&u64, &V)| *kv.0)),
            keys@ =~= it.seq().take(it.index()).map_values(|kv: (&u64, &V)| *kv.0),
    {
        keys.push(*pair.0);
    }
    proof {
        let pairs = map.iter().remaining();
        assert(keys@ =~= pairs.map_values(|kv: (&u64, &V)| *kv.0));
        assert forall|k: u64| #[trigger] map@.dom().contains(k) implies keys@.contains(k) by {
            assert(map@.contains_key(k));
            let i = choose|i: int| 0 <= i < pairs.len() && pairs[i] == (&k, &map@[k]);
            assert(keys@[i] == k);
        }
        assert forall|i: int, j: int| 0 <= i < j < keys@.len() implies keys@[i] < keys@[j] by {
            assert(keys@[i].cmp_spec(&keys@[j]) is Less);
        }
        assert(lists_in_order(keys@, map@.dom()));
        lemma_listing_unique(keys@, in_order(map@.dom()), map@.dom());
    }
    keys
}

} // verus!
