//! Sorting records by integer keys.
//!
//! Tables and lists reach their readers in an order that does not depend on how a
//! file or a directory listed them: they are sorted by a key of up to three
//! integers, and records with equal keys stay in the order in which they came.

use vstd::prelude::*;

verus! {

/// A sort key, compared component by component.
pub type Key = (int, int, int);

/// A value with a sort key.
pub trait HasKey: Sized {
    /// The key.
    spec fn key(&self) -> Key;
}

/// A record whose sort key can be computed.
pub trait Keyed: HasKey {
    /// The key's components.
    fn sort_key(&self) -> (r: (i64, i64, i64))
        ensures
            r.0 == self.key().0,
            r.1 == self.key().1,
            r.2 == self.key().2,
    ;
}

/// One key is less than or equal to another.
pub open spec fn at_most(a: Key, b: Key) -> bool {
    ||| a.0 < b.0
    ||| a.0 == b.0 && a.1 < b.1
    ||| a.0 == b.0 && a.1 == b.1 && a.2 <= b.2
}

/// The records with a given key, in their order.
pub open spec fn having<T: HasKey>(items: Seq<T>, key: Key) -> Seq<T> {
    items.filter(|item: T| item.key() == key)
}

/// The keys do not descend.
pub open spec fn ascending<T: HasKey>(items: Seq<T>) -> bool {
    forall|i: int, j: int|
        0 <= i < j < items.len() ==> at_most(
            (#[trigger] items[i]).key(),
            (#[trigger] items[j]).key(),
        )
}

/// `sorted` has the records of `items` by ascending key, and those with equal keys
/// in the order of `items`.
pub open spec fn is_stable_sort<T: HasKey>(items: Seq<T>, sorted: Seq<T>) -> bool {
    &&& ascending(sorted)
    &&& forall|key: Key| #[trigger] having(sorted, key) == having(items, key)
}

/// No two records have the same key.
pub open spec fn distinct_keys<T: HasKey>(items: Seq<T>) -> bool {
    forall|i: int, j: int|
        0 <= i < j < items.len() ==> (#[trigger] items[i]).key() != (#[trigger] items[j]).key()
}

proof fn having_push<T: HasKey>(items: Seq<T>, item: T, key: Key)
    ensures
        having(items.push(item), key) == if item.key() == key {
            having(items, key).push(item)
        } else {
            having(items, key)
        },
{
    reveal(Seq::filter);
    assert(items.push(item).drop_last() =~= items);
}

proof fn having_add<T: HasKey>(a: Seq<T>, b: Seq<T>, key: Key)
    ensures
        having(a + b, key) == having(a, key) + having(b, key),
{
    Seq::filter_distributes_over_add(a, b, |item: T| item.key() == key);
}

proof fn having_front<T: HasKey>(items: Seq<T>, key: Key)
    requires
        items.len() > 0,
    ensures
        having(items, key) == if items[0].key() == key {
            seq![items[0]] + having(items.drop_first(), key)
        } else {
            having(items.drop_first(), key)
        },
{
    let front = Seq::<T>::empty().push(items[0]);
    assert(items =~= front + items.drop_first());
    having_add(front, items.drop_first(), key);
    having_push(Seq::<T>::empty(), items[0], key);
    assert(having(Seq::<T>::empty(), key) =~= Seq::empty()) by {
        reveal(Seq::filter);
    }
    assert(front =~= seq![items[0]]);
    assert(Seq::<T>::empty() + having(items.drop_first(), key) =~= having(
        items.drop_first(),
        key,
    ));
}

proof fn having_none<T: HasKey>(items: Seq<T>, key: Key)
    requires
        forall|i: int| 0 <= i < items.len() ==> (#[trigger] items[i]).key() != key,
    ensures
        having(items, key) == Seq::<T>::empty(),
    decreases items.len(),
{
    reveal(Seq::filter);
    if items.len() > 0 {
        having_none(items.drop_last(), key);
    }
}

/// How often a record occurs is decided among those with its key.
proof fn having_counts<T: HasKey>(items: Seq<T>, item: T)
    ensures
        items.to_multiset().count(item) == having(items, item.key()).to_multiset().count(item),
    decreases items.len(),
{
    broadcast use vstd::seq_lib::group_to_multiset_ensures;

    if items.len() == 0 {
        having_none(items, item.key());
        assert(items =~= Seq::empty());
    } else {
        let before = items.drop_last();
        having_counts(before, item);
        having_push(before, items.last(), item.key());
        assert(before.push(items.last()) =~= items);
    }
}

/// Sorting keeps every record.
pub proof fn sorting_keeps_records<T: HasKey>(items: Seq<T>, sorted: Seq<T>)
    requires
        is_stable_sort(items, sorted),
    ensures
        sorted.to_multiset() == items.to_multiset(),
        sorted.len() == items.len(),
{
    broadcast use vstd::seq_lib::group_to_multiset_ensures;

    assert forall|item: T| #[trigger] sorted.to_multiset().count(item)
        == items.to_multiset().count(item) by {
        having_counts(items, item);
        having_counts(sorted, item);
        assert(having(sorted, item.key()) == having(items, item.key()));
    }
    assert(sorted.to_multiset() =~= items.to_multiset());
    assert(sorted.len() == sorted.to_multiset().len());
    assert(items.len() == items.to_multiset().len());
}

/// A stable sort has one outcome.
pub proof fn stable_sorts_agree<T: HasKey>(items: Seq<T>, a: Seq<T>, b: Seq<T>)
    requires
        is_stable_sort(items, a),
        is_stable_sort(items, b),
    ensures
        a == b,
{
    sorting_keeps_records(items, a);
    sorting_keeps_records(items, b);
    assert forall|key: Key| #[trigger] having(a, key) == having(b, key) by {
        assert(having(a, key) == having(items, key));
        assert(having(b, key) == having(items, key));
    }
    sorted_agree(a, b);
}

proof fn sorted_agree<T: HasKey>(a: Seq<T>, b: Seq<T>)
    requires
        ascending(a),
        ascending(b),
        a.len() == b.len(),
        forall|key: Key| #[trigger] having(a, key) == having(b, key),
    ensures
        a == b,
    decreases a.len(),
{
    if a.len() == 0 {
        assert(a =~= b);
    } else {
        let a0 = a.drop_last();
        let b0 = b.drop_last();
        assert(a0.push(a.last()) =~= a);
        assert(b0.push(b.last()) =~= b);
        last_key_is_reached(a, b);
        last_key_is_reached(b, a);
        let last = a.last().key();
        having_push(a0, a.last(), last);
        having_push(b0, b.last(), last);
        assert(having(a, last) == having(b, last));
        assert(having(a, last).last() == a.last());
        assert(having(b, last).last() == b.last());
        assert forall|key: Key| #[trigger] having(a0, key) == having(b0, key) by {
            having_push(a0, a.last(), key);
            having_push(b0, b.last(), key);
            assert(having(a, key) == having(b, key));
            if key == last {
                assert(having(a0, key) =~= having(a, key).drop_last());
                assert(having(b0, key) =~= having(b, key).drop_last());
            }
        }
        assert forall|i: int, j: int| 0 <= i < j < a0.len() implies at_most(
            (#[trigger] a0[i]).key(),
            (#[trigger] a0[j]).key(),
        ) by {
            assert(at_most(a[i].key(), a[j].key()));
        }
        assert forall|i: int, j: int| 0 <= i < j < b0.len() implies at_most(
            (#[trigger] b0[i]).key(),
            (#[trigger] b0[j]).key(),
        ) by {
            assert(at_most(b[i].key(), b[j].key()));
        }
        sorted_agree(a0, b0);
    }
}

/// The last key of one sequence occurs in another with the same records.
proof fn last_key_is_reached<T: HasKey>(a: Seq<T>, b: Seq<T>)
    requires
        a.len() > 0,
        a.len() == b.len(),
        ascending(b),
        forall|key: Key| #[trigger] having(a, key) == having(b, key),
    ensures
        at_most(a.last().key(), b.last().key()),
{
    let key = a.last().key();
    assert(a.drop_last().push(a.last()) =~= a);
    having_push(a.drop_last(), a.last(), key);
    assert(having(a, key) == having(b, key));
    if forall|i: int| 0 <= i < b.len() ==> (#[trigger] b[i]).key() != key {
        having_none(b, key);
    }
    let i = choose|i: int| 0 <= i < b.len() && (#[trigger] b[i]).key() == key;
    assert(i == b.len() - 1 || at_most(b[i].key(), b[b.len() - 1].key()));
}

/// Where no two records have the same key, the outcome does not depend on the order
/// in which they came.
pub proof fn order_does_not_matter<T: HasKey>(s1: Seq<T>, s2: Seq<T>, a: Seq<T>, b: Seq<T>)
    requires
        s1.to_multiset() == s2.to_multiset(),
        distinct_keys(s1),
        is_stable_sort(s1, a),
        is_stable_sort(s2, b),
    ensures
        a == b,
{
    broadcast use vstd::seq_lib::group_to_multiset_ensures;

    assert forall|key: Key| #[trigger] having(b, key) == having(s1, key) by {
        let h1 = having(s1, key);
        let h2 = having(s2, key);
        assert(having(b, key) == h2);
        having_is_single(s1, key);
        having_is_part(s1, key);
        having_is_part(s2, key);
        assert forall|item: T| #[trigger] h1.to_multiset().count(item) == h2.to_multiset().count(
            item,
        ) by {
            if item.key() == key {
                having_counts(s1, item);
                having_counts(s2, item);
            } else {
                if h1.contains(item) {
                    assert(false);
                }
                if h2.contains(item) {
                    assert(false);
                }
                assert(h1.to_multiset().count(item) == 0);
                assert(h2.to_multiset().count(item) == 0);
            }
        }
        assert(h1.to_multiset() =~= h2.to_multiset());
        assert(h1.len() == h1.to_multiset().len());
        assert(h2.len() == h2.to_multiset().len());
        if h1.len() == 1 {
            assert(h1.contains(h1[0]));
            assert(h1.to_multiset().count(h1[0]) > 0);
            assert(h2.contains(h1[0]));
        }
        assert(h1 =~= h2);
    }
    stable_sorts_agree(s1, a, b);
}

proof fn having_is_part<T: HasKey>(items: Seq<T>, key: Key)
    ensures
        forall|i: int|
            0 <= i < having(items, key).len() ==> (#[trigger] having(items, key)[i]).key() == key,
    decreases items.len(),
{
    if items.len() == 0 {
        having_none(items, key);
    } else {
        assert(items.drop_last().push(items.last()) =~= items);
        having_is_part(items.drop_last(), key);
        having_push(items.drop_last(), items.last(), key);
    }
}

proof fn having_is_single<T: HasKey>(items: Seq<T>, key: Key)
    requires
        distinct_keys(items),
    ensures
        having(items, key).len() <= 1,
    decreases items.len(),
{
    if items.len() == 0 {
        having_none(items, key);
    } else {
        let before = items.drop_last();
        assert(before.push(items.last()) =~= items);
        having_push(before, items.last(), key);
        assert forall|i: int, j: int| 0 <= i < j < before.len() implies (
        #[trigger] before[i]).key() != (#[trigger] before[j]).key() by {
            assert(items[i].key() != items[j].key());
        }
        having_is_single(before, key);
        if items.last().key() == key {
            assert forall|i: int| 0 <= i < before.len() implies (#[trigger] before[i]).key()
                != key by {
                assert(items[i].key() != items[items.len() - 1].key());
            }
            having_none(before, key);
        }
    }
}

/// After how many records of an ascending sequence a record with that key belongs.
pub open spec fn place<T: HasKey>(items: Seq<T>, key: Key) -> int
    decreases items.len(),
{
    if items.len() == 0 || at_most(items.last().key(), key) {
        items.len() as int
    } else {
        place(items.drop_last(), key)
    }
}

/// The records by ascending key, those with equal keys in the order in which they
/// came: each is put in its place among those before it.
pub open spec fn sorted<T: HasKey>(items: Seq<T>) -> Seq<T>
    decreases items.len(),
{
    if items.len() == 0 {
        items
    } else {
        let before = sorted(items.drop_last());
        before.insert(place(before, items.last().key()), items.last())
    }
}

/// What is sorted is a stable sort of the records, and the only one.
pub proof fn sorted_is<T: HasKey>(items: Seq<T>)
    ensures
        is_stable_sort(items, sorted(items)),
        forall|s: Seq<T>| #[trigger] is_stable_sort(items, s) ==> s == sorted(items),
{
    sorted_is_stable(items);
    assert forall|s: Seq<T>| #[trigger] is_stable_sort(items, s) implies s == sorted(items) by {
        stable_sorts_agree(items, s, sorted(items));
    }
}

proof fn one_has_its_key<T: HasKey>(items: Seq<T>, a: int)
    requires
        0 <= a < items.len(),
    ensures
        having(items, items[a].key()).len() >= 1,
    decreases items.len(),
{
    reveal(Seq::filter);
    if a < items.len() - 1 {
        one_has_its_key(items.drop_last(), a);
    }
}

/// Two records with one key are both among those that have it.
proof fn two_have_their_key<T: HasKey>(items: Seq<T>, a: int, b: int)
    requires
        0 <= a < b < items.len(),
        items[a].key() == items[b].key(),
    ensures
        having(items, items[a].key()).len() >= 2,
    decreases items.len(),
{
    let before = items.drop_last();
    assert(before.push(items.last()) =~= items);
    having_push(before, items.last(), items[a].key());
    if b == items.len() - 1 {
        one_has_its_key(before, a);
    } else {
        two_have_their_key(before, a, b);
    }
}

/// Of records with distinct keys at most one has a key.
proof fn one_has_a_key<T: HasKey>(items: Seq<T>, key: Key)
    requires
        distinct_keys(items),
    ensures
        having(items, key).len() <= 1,
        (forall|k: int| 0 <= k < items.len() ==> (#[trigger] items[k]).key() != key) ==> having(
            items,
            key,
        ).len() == 0,
    decreases items.len(),
{
    reveal(Seq::filter);
    if items.len() > 0 {
        let before = items.drop_last();
        assert(before.push(items.last()) =~= items);
        having_push(before, items.last(), key);
        assert forall|a: int, b: int| 0 <= a < b < before.len() implies (
        #[trigger] before[a]).key() != (#[trigger] before[b]).key() by {
            assert(items[a].key() != items[b].key());
        }
        one_has_a_key(before, key);
        if items.last().key() == key {
            assert forall|k: int| 0 <= k < before.len() implies (#[trigger] before[k]).key()
                != key by {
                assert(items[k].key() != items[items.len() - 1].key());
            }
        } else if forall|k: int| 0 <= k < items.len() ==> (#[trigger] items[k]).key() != key {
            assert forall|k: int| 0 <= k < before.len() implies (#[trigger] before[k]).key()
                != key by {
                assert(items[k].key() != key);
            }
        }
    }
}

/// Records have distinct keys exactly where the sorted ones do.
pub proof fn sorted_keeps_distinct_keys<T: HasKey>(items: Seq<T>)
    ensures
        distinct_keys(items) <==> distinct_keys(sorted(items)),
{
    let s = sorted(items);
    sorted_is(items);
    if distinct_keys(items) {
        assert forall|a: int, b: int| 0 <= a < b < s.len() implies (#[trigger] s[a]).key() != (
        #[trigger] s[b]).key() by {
            if s[a].key() == s[b].key() {
                two_have_their_key(s, a, b);
                one_has_a_key(items, s[a].key());
                assert(having(s, s[a].key()) == having(items, s[a].key()));
            }
        }
    }
    if distinct_keys(s) {
        assert forall|a: int, b: int| 0 <= a < b < items.len() implies (#[trigger] items[a]).key()
            != (#[trigger] items[b]).key() by {
            if items[a].key() == items[b].key() {
                two_have_their_key(items, a, b);
                one_has_a_key(s, items[a].key());
                assert(having(s, items[a].key()) == having(items, items[a].key()));
            }
        }
    }
}

/// Each record is among the sorted ones, at the place that is given back.
pub proof fn sorted_has<T: HasKey>(items: Seq<T>, e: int) -> (i: int)
    requires
        0 <= e < items.len(),
    ensures
        sorted(items).len() == items.len(),
        0 <= i < items.len(),
        sorted(items)[i] == items[e],
{
    broadcast use vstd::seq_lib::group_to_multiset_ensures;

    sorted_is(items);
    sorting_keeps_records(items, sorted(items));
    assert(items.contains(items[e]));
    assert(items.to_multiset().count(items[e]) > 0);
    assert(sorted(items).contains(items[e]));
    sorted(items).index_of(items[e])
}

/// Each sorted record is one of the records, that at the place that is given back.
pub proof fn sorted_comes_from<T: HasKey>(items: Seq<T>, i: int) -> (e: int)
    requires
        0 <= i < sorted(items).len(),
    ensures
        sorted(items).len() == items.len(),
        0 <= e < items.len(),
        sorted(items)[i] == items[e],
{
    broadcast use vstd::seq_lib::group_to_multiset_ensures;

    let s = sorted(items);
    sorted_is(items);
    sorting_keeps_records(items, s);
    assert(s.contains(s[i]));
    assert(s.to_multiset().count(s[i]) > 0);
    assert(items.contains(s[i]));
    items.index_of(s[i])
}

/// Where no two records have the same key, what is sorted does not depend on the
/// order in which the records came.
pub proof fn sorted_ignores_order<T: HasKey>(s1: Seq<T>, s2: Seq<T>)
    requires
        s1.to_multiset() == s2.to_multiset(),
        distinct_keys(s1),
    ensures
        sorted(s1) == sorted(s2),
{
    sorted_is(s1);
    sorted_is(s2);
    order_does_not_matter(s1, s2, sorted(s1), sorted(s2));
}

/// Lists with the same items have the same images of them.
pub proof fn images_keep_items<A, B>(s1: Seq<A>, s2: Seq<A>, f: spec_fn(A) -> B)
    requires
        s1.to_multiset() == s2.to_multiset(),
    ensures
        s1.map_values(f).to_multiset() == s2.map_values(f).to_multiset(),
    decreases s1.len(),
{
    broadcast use vstd::seq_lib::group_to_multiset_ensures;

    if s1.len() == 0 {
        assert(s2.to_multiset().len() == s2.len());
        assert(s1.to_multiset().len() == s1.len());
        assert(s1.map_values(f) =~= s2.map_values(f));
    } else {
        let last = s1.last();
        let i = s1.len() - 1;
        assert(s1.contains(last));
        assert(s1.to_multiset().count(last) > 0);
        assert(s2.contains(last));
        let j = s2.index_of(last);
        images_keep_items(s1.remove(i), s2.remove(j), f);
        assert(s1.remove(i).map_values(f) =~= s1.map_values(f).remove(i));
        assert(s2.remove(j).map_values(f) =~= s2.map_values(f).remove(j));
        assert(s1.map_values(f) =~= s1.map_values(f).remove(i).insert(i, f(last)));
        assert(s2.map_values(f) =~= s2.map_values(f).remove(j).insert(j, f(last)));
    }
}

/// Values with the same keys as others sort as those do.
pub proof fn images_sort_alike<A: HasKey, B: HasKey>(items: Seq<A>, f: spec_fn(A) -> B)
    requires
        forall|a: A| (#[trigger] f(a)).key() == a.key(),
    ensures
        sorted(items).map_values(f) == sorted(items.map_values(f)),
{
    let s = sorted(items);
    let t = s.map_values(f);
    sorted_is(items);
    sorted_is(items.map_values(f));
    assert forall|i: int, j: int| 0 <= i < j < t.len() implies at_most(
        (#[trigger] t[i]).key(),
        (#[trigger] t[j]).key(),
    ) by {
        assert(at_most(s[i].key(), s[j].key()));
    }
    assert forall|key: Key| #[trigger] having(t, key) == having(items.map_values(f), key) by {
        having_images(s, f, key);
        having_images(items, f, key);
        assert(having(s, key) == having(items, key));
    }
    assert(is_stable_sort(items.map_values(f), t));
}

proof fn having_images<A: HasKey, B: HasKey>(items: Seq<A>, f: spec_fn(A) -> B, key: Key)
    requires
        forall|a: A| (#[trigger] f(a)).key() == a.key(),
    ensures
        having(items.map_values(f), key) == having(items, key).map_values(f),
    decreases items.len(),
{
    if items.len() == 0 {
        having_none(items, key);
        having_none(items.map_values(f), key);
        assert(having(items.map_values(f), key) =~= having(items, key).map_values(f));
    } else {
        let before = items.drop_last();
        let last = items.last();
        having_images(before, f, key);
        having_push(before, last, key);
        having_push(before.map_values(f), f(last), key);
        assert(before.push(last) =~= items);
        assert(before.map_values(f).push(f(last)) =~= items.map_values(f));
        assert(f(last).key() == last.key());
        assert(having(items.map_values(f), key) =~= having(items, key).map_values(f));
    }
}

proof fn place_divides<T: HasKey>(items: Seq<T>, key: Key)
    requires
        ascending(items),
    ensures
        0 <= place(items, key) <= items.len(),
        forall|i: int| 0 <= i < place(items, key) ==> at_most((#[trigger] items[i]).key(), key),
        forall|i: int|
            place(items, key) <= i < items.len() ==> !at_most((#[trigger] items[i]).key(), key),
    decreases items.len(),
{
    if items.len() > 0 {
        let before = items.drop_last();
        if at_most(items.last().key(), key) {
            assert forall|i: int| 0 <= i < items.len() implies at_most(
                (#[trigger] items[i]).key(),
                key,
            ) by {
                assert(i == items.len() - 1 || at_most(
                    items[i].key(),
                    items[items.len() - 1].key(),
                ));
            }
        } else {
            assert forall|i: int, j: int| 0 <= i < j < before.len() implies at_most(
                (#[trigger] before[i]).key(),
                (#[trigger] before[j]).key(),
            ) by {
                assert(at_most(items[i].key(), items[j].key()));
            }
            place_divides(before, key);
            assert forall|i: int| 0 <= i < place(items, key) implies at_most(
                (#[trigger] items[i]).key(),
                key,
            ) by {
                assert(items[i] == before[i]);
            }
            assert forall|i: int| place(items, key) <= i < items.len() implies !at_most(
                (#[trigger] items[i]).key(),
                key,
            ) by {
                if i < before.len() {
                    assert(items[i] == before[i]);
                }
            }
        }
    }
}

proof fn sorted_is_stable<T: HasKey>(items: Seq<T>)
    ensures
        is_stable_sort(items, sorted(items)),
    decreases items.len(),
{
    if items.len() > 0 {
        let item = items.last();
        let before = sorted(items.drop_last());
        sorted_is_stable(items.drop_last());
        let at = place(before, item.key());
        place_divides(before, item.key());
        let all = before.insert(at, item);
        assert(items.drop_last().push(item) =~= items);
        assert forall|i: int, j: int| 0 <= i < j < all.len() implies at_most(
            (#[trigger] all[i]).key(),
            (#[trigger] all[j]).key(),
        ) by {
            if i < at && j < at {
                assert(at_most(before[i].key(), before[j].key()));
            } else if i < at && j > at {
                assert(at_most(before[i].key(), before[j - 1].key()));
            } else if i > at {
                assert(at_most(before[i - 1].key(), before[j - 1].key()));
            } else if i == at {
                assert(!at_most(before[j - 1].key(), item.key()));
            }
        }
        let low = before.subrange(0, at);
        let high = before.subrange(at, before.len() as int);
        assert(before =~= low + high);
        assert(all =~= low.push(item) + high);
        assert forall|key: Key| #[trigger] having(all, key) == having(items, key) by {
            having_add(low, high, key);
            having_add(low.push(item), high, key);
            having_push(low, item, key);
            having_push(items.drop_last(), item, key);
            assert(having(before, key) == having(items.drop_last(), key));
            if key == item.key() {
                assert forall|i: int| 0 <= i < high.len() implies (#[trigger] high[i]).key()
                    != key by {
                    assert(!at_most(before[at + i].key(), key));
                }
                having_none(high, key);
                assert(having(all, key) =~= having(items, key));
            }
        }
    }
}

// ── The sort ─────────────────────────────────────────────────────────────────

/// Whether one key is at most another.
fn key_at_most(a: (i64, i64, i64), b: (i64, i64, i64)) -> (r: bool)
    ensures
        r == at_most(
            (a.0 as int, a.1 as int, a.2 as int),
            (b.0 as int, b.1 as int, b.2 as int),
        ),
{
    a.0 < b.0 || (a.0 == b.0 && (a.1 < b.1 || (a.1 == b.1 && a.2 <= b.2)))
}

/// The items from the last to the first.
fn backwards<T>(items: Vec<T>) -> (r: Vec<T>)
    ensures
        r@ == items@.reverse(),
{
    let ghost all = items@;
    let mut rest = items;
    let mut r: Vec<T> = Vec::new();
    while rest.len() > 0
        invariant
            rest@ == all.subrange(0, rest@.len() as int),
            rest@.len() + r@.len() == all.len(),
            r@ == all.reverse().subrange(0, r@.len() as int),
        decreases rest.len(),
    {
        let ghost n: int = r@.len() as int;
        match rest.pop() {
            Some(item) => {
                r.push(item);
                assert(r@ =~= all.reverse().subrange(0, n + 1));
            },
            None => {},
        }
    }
    assert(r@ =~= all.reverse());
    r
}

/// Both the drawn and the remaining records of a merge, by key.
spec fn merging<T: HasKey>(done: Seq<T>, a: Seq<T>, b: Seq<T>, key: Key) -> Seq<T> {
    having(done, key) + having(a, key) + having(b, key)
}

/// Each record of `done` has a key of at most those of `rest`.
spec fn all_before<T: HasKey>(done: Seq<T>, rest: Seq<T>) -> bool {
    forall|i: int, j: int|
        0 <= i < done.len() && 0 <= j < rest.len() ==> at_most(
            (#[trigger] done[i]).key(),
            (#[trigger] rest[j]).key(),
        )
}

/// Drawing the first record of the first run.
proof fn draw_first<T: HasKey>(done: Seq<T>, a: Seq<T>, b: Seq<T>)
    requires
        a.len() > 0,
        ascending(done),
        ascending(a),
        ascending(b),
        all_before(done, a),
        all_before(done, b),
        b.len() > 0 ==> at_most(a[0].key(), b[0].key()),
    ensures
        ascending(done.push(a[0])),
        ascending(a.drop_first()),
        all_before(done.push(a[0]), a.drop_first()),
        all_before(done.push(a[0]), b),
        forall|key: Key| #[trigger]
            merging(done.push(a[0]), a.drop_first(), b, key) == merging(done, a, b, key),
{
    let rest = a.drop_first();
    assert forall|key: Key| #[trigger] merging(done.push(a[0]), rest, b, key) == merging(
        done,
        a,
        b,
        key,
    ) by {
        having_push(done, a[0], key);
        having_front(a, key);
        assert(merging(done.push(a[0]), rest, b, key) =~= merging(done, a, b, key));
    }
    drawn_in_order(done, a);
    assert forall|j: int| 0 <= j < b.len() implies at_most(
        a[0].key(),
        (#[trigger] b[j]).key(),
    ) by {
        if j > 0 {
            assert(at_most(b[0].key(), b[j].key()));
        }
    }
}

/// Drawing the first record of the second run.
proof fn draw_second<T: HasKey>(done: Seq<T>, a: Seq<T>, b: Seq<T>)
    requires
        b.len() > 0,
        ascending(done),
        ascending(a),
        ascending(b),
        all_before(done, a),
        all_before(done, b),
        a.len() > 0 ==> !at_most(a[0].key(), b[0].key()),
    ensures
        ascending(done.push(b[0])),
        ascending(b.drop_first()),
        all_before(done.push(b[0]), a),
        all_before(done.push(b[0]), b.drop_first()),
        forall|key: Key| #[trigger]
            merging(done.push(b[0]), a, b.drop_first(), key) == merging(done, a, b, key),
{
    let rest = b.drop_first();
    assert forall|j: int| 0 <= j < a.len() implies at_most(b[0].key(), (#[trigger] a[j]).key())
        && a[j].key() != b[0].key() by {
        if j > 0 {
            assert(at_most(a[0].key(), a[j].key()));
        }
    }
    assert forall|key: Key| #[trigger] merging(done.push(b[0]), a, rest, key) == merging(
        done,
        a,
        b,
        key,
    ) by {
        having_push(done, b[0], key);
        having_front(b, key);
        if b[0].key() == key {
            having_none(a, key);
        }
        assert(merging(done.push(b[0]), a, rest, key) =~= merging(done, a, b, key));
    }
    drawn_in_order(done, b);
}

proof fn drawn_in_order<T: HasKey>(done: Seq<T>, a: Seq<T>)
    requires
        a.len() > 0,
        ascending(done),
        ascending(a),
        all_before(done, a),
    ensures
        ascending(done.push(a[0])),
        ascending(a.drop_first()),
        all_before(done.push(a[0]), a.drop_first()),
{
    let next = done.push(a[0]);
    let rest = a.drop_first();
    assert forall|i: int, j: int| 0 <= i < j < next.len() implies at_most(
        (#[trigger] next[i]).key(),
        (#[trigger] next[j]).key(),
    ) by {
        if j < done.len() {
            assert(at_most(done[i].key(), done[j].key()));
        } else {
            assert(at_most(done[i].key(), a[0].key()));
        }
    }
    assert forall|i: int, j: int| 0 <= i < j < rest.len() implies at_most(
        (#[trigger] rest[i]).key(),
        (#[trigger] rest[j]).key(),
    ) by {
        assert(at_most(a[i + 1].key(), a[j + 1].key()));
    }
    assert forall|i: int, j: int| 0 <= i < next.len() && 0 <= j < rest.len() implies at_most(
        (#[trigger] next[i]).key(),
        (#[trigger] rest[j]).key(),
    ) by {
        if i < done.len() {
            assert(at_most(done[i].key(), a[j + 1].key()));
        } else {
            assert(at_most(a[0].key(), a[j + 1].key()));
        }
    }
}

/// Merges two sorted runs, the records of the first before equal ones of the second.
fn merge<T: Keyed>(first: Vec<T>, second: Vec<T>) -> (r: Vec<T>)
    requires
        ascending(first@),
        ascending(second@),
    ensures
        is_stable_sort(first@ + second@, r@),
{
    let mut a: Vec<T> = backwards(first);
    let mut b: Vec<T> = backwards(second);
    let mut done: Vec<T> = Vec::new();
    proof {
        assert(a@.reverse() =~= first@);
        assert(b@.reverse() =~= second@);
        assert forall|key: Key| #[trigger] merging(done@, first@, second@, key) == having(
            first@ + second@,
            key,
        ) by {
            having_add(first@, second@, key);
            having_none(done@, key);
            assert(merging(done@, first@, second@, key) =~= having(first@ + second@, key));
        }
    }
    while a.len() > 0 || b.len() > 0
        invariant
            ascending(done@),
            ascending(a@.reverse()),
            ascending(b@.reverse()),
            all_before(done@, a@.reverse()),
            all_before(done@, b@.reverse()),
            forall|key: Key| #[trigger]
                merging(done@, a@.reverse(), b@.reverse(), key) == having(first@ + second@, key),
        decreases a.len() + b.len(),
    {
        let from_first: bool = if b.len() == 0 {
            true
        } else if a.len() == 0 {
            false
        } else {
            key_at_most(a[a.len() - 1].sort_key(), b[b.len() - 1].sort_key())
        };
        let ghost ra = a@.reverse();
        let ghost rb = b@.reverse();
        let ghost before = done@;
        if from_first {
            proof {
                draw_first(before, ra, rb);
            }
            match a.pop() {
                Some(item) => {
                    done.push(item);
                },
                None => {},
            }
            proof {
                assert(a@.reverse() =~= ra.drop_first());
                assert forall|key: Key| #[trigger] merging(
                    done@,
                    a@.reverse(),
                    b@.reverse(),
                    key,
                ) == having(first@ + second@, key) by {
                    assert(merging(before.push(ra[0]), ra.drop_first(), rb, key) == merging(
                        before,
                        ra,
                        rb,
                        key,
                    ));
                }
            }
        } else {
            proof {
                draw_second(before, ra, rb);
            }
            match b.pop() {
                Some(item) => {
                    done.push(item);
                },
                None => {},
            }
            proof {
                assert(b@.reverse() =~= rb.drop_first());
                assert forall|key: Key| #[trigger] merging(
                    done@,
                    a@.reverse(),
                    b@.reverse(),
                    key,
                ) == having(first@ + second@, key) by {
                    assert(merging(before.push(rb[0]), ra, rb.drop_first(), key) == merging(
                        before,
                        ra,
                        rb,
                        key,
                    ));
                }
            }
        }
    }
    proof {
        assert forall|key: Key| #[trigger] having(done@, key) == having(
            first@ + second@,
            key,
        ) by {
            having_none(a@.reverse(), key);
            having_none(b@.reverse(), key);
            assert(merging(done@, a@.reverse(), b@.reverse(), key) =~= having(done@, key));
        }
    }
    done
}

/// Sorts records by ascending key; records with equal keys keep their order.
pub fn sort_by_key<T: Keyed>(items: Vec<T>) -> (r: Vec<T>)
    ensures
        r@ == sorted(items@),
        is_stable_sort(items@, r@),
    decreases items.len(),
{
    let ghost all = items@;
    proof {
        sorted_is(all);
    }
    if items.len() <= 1 {
        proof {
            assert(is_stable_sort(all, all));
        }
        return items;
    }
    let middle: usize = items.len() / 2;
    let mut left: Vec<T> = items;
    let right: Vec<T> = left.split_off(middle);
    let ghost l = left@;
    let ghost r = right@;
    let a: Vec<T> = sort_by_key(left);
    let b: Vec<T> = sort_by_key(right);
    let whole: Vec<T> = merge(a, b);
    proof {
        assert(l + r =~= all);
        assert forall|key: Key| #[trigger] having(whole@, key) == having(all, key) by {
            having_add(l, r, key);
            having_add(a@, b@, key);
            assert(having(a@, key) == having(l, key));
            assert(having(b@, key) == having(r, key));
            assert(having(whole@, key) == having(a@ + b@, key));
        }
        assert(is_stable_sort(all, whole@));
    }
    whole
}

} // verus!
