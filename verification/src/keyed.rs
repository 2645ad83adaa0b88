//! Ordered lists whose items are found by a text key.
use vstd::prelude::*;

use crate::text;

verus! {

/// An item with a text key.
pub trait Keyed: Sized {
    /// The key of the item.
    spec fn key(&self) -> Seq<char>;

    /// The key of the item.
    fn key_text(&self) -> (out: &str)
        ensures
            out@ == self.key(),
    ;
}

/// The position at or after `from` of the first item with this key.
pub open spec fn first_key<T: Keyed>(s: Seq<T>, key: Seq<char>, from: int) -> Option<int>
    decreases s.len() - from,
{
    if from < 0 || from >= s.len() {
        None
    } else if s[from].key() == key {
        Some(from)
    } else {
        first_key(s, key, from + 1)
    }
}

/// The position before `end` of the last item with this key.
pub open spec fn last_key<T: Keyed>(s: Seq<T>, key: Seq<char>, end: int) -> Option<int>
    decreases end,
{
    if end <= 0 || end > s.len() {
        None
    } else if s[end - 1].key() == key {
        Some(end - 1)
    } else {
        last_key(s, key, end - 1)
    }
}

/// The list with `item` in the place of the first item with its key, or at the end where no
/// item has it.
pub open spec fn placed<T: Keyed>(s: Seq<T>, item: T) -> Seq<T> {
    match first_key(s, item.key(), 0) {
        Some(i) => s.update(i, item),
        None => s.push(item),
    }
}

/// The list without the items that have this key.
pub open spec fn without<T: Keyed>(s: Seq<T>, key: Seq<char>) -> Seq<T>
    decreases s.len(),
{
    if s.len() == 0 {
        s
    } else if s.last().key() == key {
        without(s.drop_last(), key)
    } else {
        without(s.drop_last(), key).push(s.last())
    }
}

/// What the first position with a key means.
pub proof fn lemma_first_key<T: Keyed>(s: Seq<T>, key: Seq<char>, from: int)
    requires
        0 <= from <= s.len(),
    ensures
        match first_key(s, key, from) {
            Some(i) => from <= i < s.len() && s[i].key() == key && forall|j: int|
                from <= j < i ==> (#[trigger] s[j]).key() != key,
            None => forall|j: int| from <= j < s.len() ==> (#[trigger] s[j]).key() != key,
        },
    decreases s.len() - from,
{
    if from < s.len() && s[from].key() != key {
        lemma_first_key(s, key, from + 1);
    }
}

/// Whether no two items have the same key.
pub open spec fn distinct<T: Keyed>(s: Seq<T>) -> bool {
    forall|i: int, j: int|
        0 <= i < j < s.len() ==> (#[trigger] s[i]).key() != (#[trigger] s[j]).key()
}

/// Placing an item makes it the one that is found under its key. Every item with another key
/// stays what and where it was, none with another key comes, and a list with distinct keys keeps
/// them distinct.
pub proof fn law_placed_item_is_found<T: Keyed>(s: Seq<T>, item: T)
    ensures
        first_key(placed(s, item), item.key(), 0) is Some,
        placed(s, item)[first_key(placed(s, item), item.key(), 0)->0] == item,
        distinct(s) ==> distinct(placed(s, item)),
        forall|k: Seq<char>|
            k != item.key() ==> #[trigger] first_key(placed(s, item), k, 0) == first_key(s, k, 0),
        forall|i: int|
            0 <= i < s.len() && s[i].key() != item.key() ==> #[trigger] placed(s, item)[i] == s[i],
        forall|i: int|
            0 <= i < placed(s, item).len() && (#[trigger] placed(s, item)[i]).key() != item.key()
                ==> i < s.len() && s[i] == placed(s, item)[i],
{
    let t = placed(s, item);
    lemma_first_key(s, item.key(), 0);
    lemma_first_key(t, item.key(), 0);
    match first_key(s, item.key(), 0) {
        Some(i) => {
            assert(t[i].key() == item.key());
            let f = first_key(t, item.key(), 0)->0;
            if f < i {
                assert(t[f] == s[f]);
                assert(s[f].key() != item.key());
            }
        },
        None => {
            assert(t[s.len() as int].key() == item.key());
            let f = first_key(t, item.key(), 0)->0;
            if f < s.len() {
                assert(t[f] == s[f]);
                assert(s[f].key() != item.key());
            }
        },
    }
    assert forall|k: Seq<char>| k != item.key() implies #[trigger] first_key(t, k, 0) == first_key(
        s,
        k,
        0,
    ) by {
        lemma_first_key(s, k, 0);
        lemma_first_key(t, k, 0);
        match first_key(s, k, 0) {
            Some(i) => {
                assert(t[i].key() == k);
                let f = first_key(t, k, 0)->0;
                if f < i {
                    assert(s[f].key() != k);
                }
            },
            None => {
                match first_key(t, k, 0) {
                    Some(f) => {
                        if f < s.len() {
                            assert(s[f].key() != k);
                        }
                    },
                    None => {},
                }
            },
        }
    }
}

/// Leaving out a key leaves no item with it and keeps every other item.
pub proof fn law_without_key<T: Keyed>(s: Seq<T>, key: Seq<char>)
    ensures
        first_key(without(s, key), key, 0) is None,
        without(s, key).len() <= s.len(),
        (without(s, key).len() == s.len()) <==> first_key(s, key, 0) is None,
        first_key(s, key, 0) is None ==> without(s, key) == s,
        forall|x: T| #[trigger] without(s, key).contains(x) <==> s.contains(x) && x.key() != key,
    decreases s.len(),
{
    let w = without(s, key);
    if s.len() > 0 {
        let p = s.drop_last();
        let v = without(p, key);
        law_without_key(p, key);
        lemma_first_key(p, key, 0);
        lemma_first_key(s, key, 0);
        assert forall|x: T| #[trigger] w.contains(x) implies s.contains(x) && x.key() != key by {
            let k = choose|k: int| 0 <= k < w.len() && w[k] == x;
            if k < v.len() {
                assert(v[k] == x);
                assert(v.contains(x));
                let m = choose|m: int| 0 <= m < p.len() && p[m] == x;
                assert(s[m] == x);
            } else {
                assert(s[s.len() - 1] == x);
            }
        }
        assert forall|x: T| s.contains(x) && x.key() != key implies #[trigger] w.contains(x) by {
            let k = choose|k: int| 0 <= k < s.len() && s[k] == x;
            if k < p.len() {
                assert(p[k] == x);
                assert(v.contains(x));
                let m = choose|m: int| 0 <= m < v.len() && v[m] == x;
                assert(w[m] == x);
            } else {
                assert(w[w.len() - 1] == x);
            }
        }
        if first_key(s, key, 0) is None {
            assert(s[s.len() - 1].key() != key);
            match first_key(p, key, 0) {
                Some(i) => {
                    assert(s[i].key() != key);
                },
                None => {},
            }
            assert(p.push(s.last()) =~= s);
        } else {
            let i = first_key(s, key, 0)->0;
            if i < p.len() {
                assert(p[i].key() == key);
            }
        }
    }
    lemma_first_key(w, key, 0);
    match first_key(w, key, 0) {
        Some(i) => {
            assert(w.contains(w[i]));
        },
        None => {},
    }
}

/// The position of the first item with this key.
pub fn find<T: Keyed>(list: &Vec<T>, key: &str) -> (found: Option<usize>)
    ensures
        match first_key(list@, key@, 0) {
            Some(i) => found == Some(i as usize) && 0 <= i < list.len(),
            None => found is None,
        },
{
    let mut i: usize = 0;
    while i < list.len()
        invariant
            i <= list.len(),
            first_key(list@, key@, 0) == first_key(list@, key@, i as int),
        decreases list.len() - i,
    {
        if text::same_text(list[i].key_text(), key) {
            return Some(i);
        }
        i += 1;
    }
    None
}

/// Puts `item` in the place of the first item with its key, or at the end. Tells whether an
/// item was replaced.
pub fn place<T: Keyed>(list: &mut Vec<T>, item: T) -> (replaced: bool)
    ensures
        final(list)@ == placed(old(list)@, item),
        replaced == (first_key(old(list)@, item.key(), 0) is Some),
{
    match find(list, item.key_text()) {
        Some(i) => {
            list.set(i, item);
            true
        },
        None => {
            list.push(item);
            false
        },
    }
}

/// Takes out the items that have this key.
pub fn remove_all<T: Keyed>(list: &mut Vec<T>, key: &str)
    ensures
        final(list)@ == without(old(list)@, key@),
{
    let ghost all = list@;
    let mut i: usize = 0;
    let ghost mut seen: int = 0;
    proof {
        assert(all.take(0) =~= Seq::<T>::empty());
        assert(all.skip(0) =~= all);
        assert(Seq::<T>::empty() + all =~= all);
    }
    while i < list.len()
        invariant
            0 <= seen <= all.len(),
            i == without(all.take(seen), key@).len(),
            list@ == without(all.take(seen), key@) + all.skip(seen),
        decreases list.len() - i,
    {
        proof {
            assert(list@[i as int] == all[seen]);
            assert(all.take(seen + 1).drop_last() =~= all.take(seen));
            assert(all.take(seen + 1).last() == all[seen]);
        }
        let ghost kept = without(all.take(seen), key@);
        if text::same_text(list[i].key_text(), key) {
            list.remove(i);
            proof {
                assert(list@ =~= kept + all.skip(seen + 1));
            }
        } else {
            i += 1;
            proof {
                assert(list@ =~= kept.push(all[seen]) + all.skip(seen + 1));
            }
        }
        proof {
            seen = seen + 1;
        }
    }
    proof {
        assert(seen == all.len());
        assert(all.take(seen) =~= all);
        assert(list@ =~= without(all, key@));
    }
}

/// Leaving out a key keeps every other item, in order and as often as it was there.
pub proof fn law_without_keeps_the_order<T: Keyed>(s: Seq<T>, key: Seq<char>)
    ensures
        without(s, key) == s.filter(|x: T| x.key() != key),
    decreases s.len(),
{
    reveal(Seq::filter);
    if s.len() > 0 {
        law_without_keeps_the_order(s.drop_last(), key);
    }
}

/// The first item with a key is the one that no item with the key stands before; the last one is
/// the one that none stands behind.
pub proof fn law_first_and_last<T: Keyed>(s: Seq<T>, key: Seq<char>, i: int)
    requires
        0 <= i < s.len(),
        s[i].key() == key,
    ensures
        (forall|j: int| 0 <= j < i ==> (#[trigger] s[j]).key() != key) ==> first_key(s, key, 0)
            == Some(i),
        (forall|j: int| i < j < s.len() ==> (#[trigger] s[j]).key() != key) ==> last_key(
            s,
            key,
            s.len() as int,
        ) == Some(i),
{
    lemma_first_key(s, key, 0);
    if forall|j: int| 0 <= j < i ==> (#[trigger] s[j]).key() != key {
        match first_key(s, key, 0) {
            Some(f) => {
                if f < i {
                    assert(s[f].key() == key);
                } else if i < f {
                    assert(s[i].key() != key);
                }
            },
            None => {
                assert(s[i].key() != key);
            },
        }
    }
    if forall|j: int| i < j < s.len() ==> (#[trigger] s[j]).key() != key {
        lemma_last_key(s, key, i, s.len() as int);
    }
}

pub proof fn lemma_last_key<T: Keyed>(s: Seq<T>, key: Seq<char>, i: int, end: int)
    requires
        0 <= i < end <= s.len(),
        s[i].key() == key,
        forall|j: int| i < j < end ==> (#[trigger] s[j]).key() != key,
    ensures
        last_key(s, key, end) == Some(i),
    decreases end,
{
    if i < end - 1 {
        assert(s[end - 1].key() != key);
        lemma_last_key(s, key, i, end - 1);
    }
}

/// Where a last item is found it has the key.
pub proof fn lemma_last_has_key<T: Keyed>(s: Seq<T>, key: Seq<char>, end: int)
    requires
        0 <= end <= s.len(),
    ensures
        last_key(s, key, end) matches Some(i) ==> 0 <= i < end && s[i].key() == key,
    decreases end,
{
    if end > 0 && s[end - 1].key() != key {
        lemma_last_has_key(s, key, end - 1);
    }
}

} // verus!
