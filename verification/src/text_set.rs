//! Sets of texts, kept in text order.
use vstd::prelude::*;

use crate::text;

verus! {

/// Text order: character by character, a prefix before its continuations.
pub open spec fn text_less(a: Seq<char>, b: Seq<char>) -> bool
    decreases a.len(),
{
    if b.len() == 0 {
        false
    } else if a.len() == 0 {
        true
    } else if a[0] != b[0] {
        (a[0] as int) < (b[0] as int)
    } else {
        text_less(a.skip(1), b.skip(1))
    }
}

/// Text order is a strict order.
pub proof fn law_text_order_strict(a: Seq<char>, b: Seq<char>)
    ensures
        !text_less(a, a),
        !(text_less(a, b) && text_less(b, a)),
    decreases a.len(),
{
    if a.len() > 0 {
        if b.len() > 0 {
            law_text_order_strict(a.skip(1), b.skip(1));
        } else {
            law_text_order_strict(a.skip(1), a.skip(1));
        }
    }
}

/// Of two different texts one comes first.
pub proof fn law_text_order_total(a: Seq<char>, b: Seq<char>)
    ensures
        a == b || text_less(a, b) || text_less(b, a),
    decreases a.len(),
{
    if a.len() > 0 && b.len() > 0 && a[0] == b[0] {
        law_text_order_total(a.skip(1), b.skip(1));
        if a.skip(1) == b.skip(1) {
            assert(a =~= seq![a[0]] + a.skip(1));
            assert(b =~= seq![b[0]] + b.skip(1));
        }
    } else if a.len() == 0 && b.len() == 0 {
        assert(a =~= b);
    }
}

/// Text order is transitive.
pub proof fn law_text_order_transitive(a: Seq<char>, b: Seq<char>, c: Seq<char>)
    requires
        text_less(a, b),
        text_less(b, c),
    ensures
        text_less(a, c),
    decreases a.len(),
{
    if a.len() > 0 && a[0] == b[0] && b[0] == c[0] {
        law_text_order_transitive(a.skip(1), b.skip(1), c.skip(1));
    }
}

fn code_point(c: char) -> (n: u32)
    ensures
        n == c as int,
{
    c as u32
}

/// Whether `a` comes before `b` in text order.
pub fn comes_before(a: &str, b: &str) -> (result: bool)
    ensures
        result == text_less(a@, b@),
{
    let left = text::chars_of(a);
    let right = text::chars_of(b);
    let mut i: usize = 0;
    proof {
        assert(a@.skip(0) =~= a@);
        assert(b@.skip(0) =~= b@);
    }
    while i < left.len() && i < right.len() && left[i] == right[i]
        invariant
            i <= left.len(),
            i <= right.len(),
            left@ == a@,
            right@ == b@,
            text_less(a@, b@) == text_less(a@.skip(i as int), b@.skip(i as int)),
        decreases left.len() - i,
    {
        proof {
            assert(a@.skip(i as int).skip(1) =~= a@.skip(i as int + 1));
            assert(b@.skip(i as int).skip(1) =~= b@.skip(i as int + 1));
        }
        i += 1;
    }
    if i == right.len() {
        false
    } else if i == left.len() {
        true
    } else {
        code_point(left[i]) < code_point(right[i])
    }
}

/// Whether each text comes before the next.
pub open spec fn ascending(s: Seq<Seq<char>>) -> bool {
    forall|i: int, j: int|
        0 <= i < j < s.len() ==> text_less(#[trigger] s[i], #[trigger] s[j])
}

/// The text that comes first in text order.
pub open spec fn least_of(s: Seq<Seq<char>>) -> Option<Seq<char>>
    decreases s.len(),
{
    if s.len() == 0 {
        None
    } else {
        match least_of(s.drop_last()) {
            None => Some(s.last()),
            Some(least) => if text_less(s.last(), least) {
                Some(s.last())
            } else {
                Some(least)
            },
        }
    }
}

/// The least text is one of the texts, and every other comes behind it.
pub proof fn lemma_least_of(s: Seq<Seq<char>>)
    ensures
        s.len() == 0 <==> least_of(s) is None,
        s.len() > 0 ==> s.contains(least_of(s)->0),
        forall|i: int|
            0 <= i < s.len() ==> #[trigger] s[i] == least_of(s)->0 || text_less(
                least_of(s)->0,
                s[i],
            ),
    decreases s.len(),
{
    if s.len() > 0 {
        let rest = s.drop_last();
        lemma_least_of(rest);
        let least = least_of(s)->0;
        assert(s[s.len() - 1] == s.last());
        if rest.len() > 0 {
            let before = least_of(rest)->0;
            let k = choose|k: int| 0 <= k < rest.len() && rest[k] == before;
            assert(s[k] == before);
            law_text_order_total(s.last(), before);
            assert forall|i: int| 0 <= i < s.len() implies #[trigger] s[i] == least || text_less(
                least,
                s[i],
            ) by {
                if i < rest.len() {
                    assert(rest[i] == s[i]);
                    if text_less(s.last(), before) && s[i] != before {
                        law_text_order_transitive(s.last(), before, s[i]);
                    }
                }
            }
        }
    }
}

/// The same texts in ascending order start with the least of them.
pub proof fn lemma_least_comes_first(sorted: Seq<Seq<char>>, s: Seq<Seq<char>>)
    requires
        ascending(sorted),
        sorted.to_set() == s.to_set(),
    ensures
        sorted.len() == 0 <==> s.len() == 0,
        sorted.len() > 0 ==> least_of(s) == Some(sorted[0]),
{
    lemma_least_of(s);
    if sorted.len() > 0 {
        let first = sorted[0];
        assert(sorted.to_set().contains(first));
        assert(s.to_set().contains(first));
        let least = least_of(s)->0;
        let i = choose|i: int| 0 <= i < s.len() && s[i] == first;
        assert(s[i] == least || text_less(least, s[i]));
        assert(s.to_set().contains(least));
        assert(sorted.to_set().contains(least));
        let j = choose|j: int| 0 <= j < sorted.len() && sorted[j] == least;
        if j > 0 {
            assert(text_less(sorted[0], sorted[j]));
            law_text_order_strict(first, least);
        }
    } else if s.len() > 0 {
        assert(s.to_set().contains(s[0]));
        assert(sorted.to_set().contains(s[0]));
    }
}

/// A set of texts.
#[derive(Debug)]
pub struct TextSet {
    items: Vec<String>,
}

impl View for TextSet {
    type V = Set<Seq<char>>;

    closed spec fn view(&self) -> Set<Seq<char>> {
        text::texts(self.items@).to_set()
    }
}

impl TextSet {
    /// The members stand in text order, so none stands twice.
    pub closed spec fn wf(&self) -> bool {
        ascending(text::texts(self.items@))
    }

    /// The members in text order.
    pub closed spec fn members(&self) -> Seq<Seq<char>> {
        text::texts(self.items@)
    }

    /// What the members are: each member once, in text order.
    pub proof fn lemma_members(&self)
        requires
            self.wf(),
        ensures
            ascending(self.members()),
            self.members().to_set() == self@,
            self.members().len() == self@.len(),
            self@.finite(),
    {
        let s = self.members();
        assert forall|i: int, j: int| 0 <= i < s.len() && 0 <= j < s.len() && i != j implies s[i]
            != s[j] by {
            law_text_order_strict(s[i], s[j]);
            if i < j {
                assert(text_less(s[i], s[j]));
            } else {
                assert(text_less(s[j], s[i]));
            }
        }
        s.unique_seq_to_set();
    }

    /// The empty set.
    pub fn new() -> (set: TextSet)
        ensures
            set.wf(),
            set@ == Set::<Seq<char>>::empty(),
    {
        let set = TextSet { items: Vec::new() };
        proof {
            assert(set@ =~= Set::<Seq<char>>::empty());
        }
        set
    }

    /// The set with one member.
    pub fn single(member: &str) -> (set: TextSet)
        ensures
            set.wf(),
            set@ == Set::<Seq<char>>::empty().insert(member@),
    {
        let mut set = TextSet::new();
        set.insert(member);
        set
    }

    /// How many members there are.
    pub fn len(&self) -> (n: usize)
        requires
            self.wf(),
        ensures
            n == self@.len(),
    {
        proof {
            self.lemma_members();
        }
        self.items.len()
    }

    /// The members in text order.
    pub fn to_vec(&self) -> (out: Vec<String>)
        ensures
            text::texts(out@) == self.members(),
    {
        let out = self.items.clone();
        proof {
            assert(text::texts(out@) =~= self.members());
        }
        out
    }

    /// Whether `member` is in the set.
    pub fn contains(&self, member: &str) -> (result: bool)
        ensures
            result == self@.contains(member@),
    {
        let ghost s = text::texts(self.items@);
        let mut i: usize = 0;
        while i < self.items.len()
            invariant
                i <= self.items.len(),
                s == text::texts(self.items@),
                forall|j: int| 0 <= j < i ==> #[trigger] s[j] != member@,
            decreases self.items.len() - i,
        {
            if text::same_text(self.items[i].as_str(), member) {
                proof {
                    assert(s[i as int] == member@);
                    assert(s.contains(member@));
                }
                return true;
            }
            i += 1;
        }
        false
    }

    /// Adds `member`. Tells whether it was new.
    pub fn insert(&mut self, member: &str) -> (added: bool)
        requires
            old(self).wf(),
        ensures
            final(self).wf(),
            final(self)@ == old(self)@.insert(member@),
            added == !old(self)@.contains(member@),
    {
        let ghost s = text::texts(self.items@);
        let mut i: usize = 0;
        while i < self.items.len() && comes_before(self.items[i].as_str(), member)
            invariant
                i <= self.items.len(),
                *self == *old(self),
                s == text::texts(self.items@),
                forall|j: int| 0 <= j < i ==> text_less(#[trigger] s[j], member@),
            decreases self.items.len() - i,
        {
            i += 1;
        }
        if i < self.items.len() && text::same_text(self.items[i].as_str(), member) {
            proof {
                assert(s[i as int] == member@);
                assert(s.contains(member@));
                assert(self@.insert(member@) =~= self@);
            }
            return false;
        }
        let member_text = member.to_owned();
        self.items.insert(i, member_text);
        proof {
            let t = text::texts(self.items@);
            assert(t =~= s.insert(i as int, member@));
            if i < s.len() {
                law_text_order_total(s[i as int], member@);
            }
            assert forall|j: int| i <= j < s.len() implies text_less(member@, #[trigger] s[j]) by {
                if j > i {
                    law_text_order_transitive(member@, s[i as int], s[j]);
                }
            }
            assert forall|a: int, b: int| 0 <= a < b < t.len() implies text_less(
                #[trigger] t[a],
                #[trigger] t[b],
            ) by {
                if b < i {
                    assert(text_less(s[a], s[b]));
                } else if a < i && b == i {
                    assert(text_less(s[a], member@));
                } else if a < i && b > i {
                    assert(text_less(s[a], s[b - 1]));
                } else if a == i {
                    assert(text_less(member@, s[b - 1]));
                } else {
                    assert(text_less(s[a - 1], s[b - 1]));
                }
            }
            assert forall|j: int| 0 <= j < s.len() implies #[trigger] s[j] != member@ by {
                law_text_order_strict(s[j], member@);
                if j < i {
                    assert(text_less(s[j], member@));
                } else {
                    assert(text_less(member@, s[j]));
                }
            }
            assert forall|x: Seq<char>| t.to_set().contains(x) == s.to_set().insert(
                member@,
            ).contains(x) by {
                if t.contains(x) {
                    let k = choose|k: int| 0 <= k < t.len() && t[k] == x;
                    if k < i {
                        assert(s[k] == x);
                    } else if k > i {
                        assert(s[k - 1] == x);
                    }
                }
                if s.contains(x) {
                    let k = choose|k: int| 0 <= k < s.len() && s[k] == x;
                    if k < i {
                        assert(t[k] == x);
                    } else {
                        assert(t[k + 1] == x);
                    }
                }
                assert(t[i as int] == member@);
            }
            assert(self@ =~= old(self)@.insert(member@));
            assert(!s.contains(member@));
        }
        true
    }

    /// Takes out `member`. Tells whether it was there.
    pub fn remove(&mut self, member: &str) -> (removed: bool)
        requires
            old(self).wf(),
        ensures
            final(self).wf(),
            final(self)@ == old(self)@.remove(member@),
            removed == old(self)@.contains(member@),
    {
        let ghost s = text::texts(self.items@);
        let mut i: usize = 0;
        while i < self.items.len() && !text::same_text(self.items[i].as_str(), member)
            invariant
                i <= self.items.len(),
                *self == *old(self),
                s == text::texts(self.items@),
                forall|j: int| 0 <= j < i ==> #[trigger] s[j] != member@,
            decreases self.items.len() - i,
        {
            i += 1;
        }
        if i == self.items.len() {
            proof {
                assert(!s.contains(member@));
                assert(self@.remove(member@) =~= self@);
            }
            return false;
        }
        self.items.remove(i);
        proof {
            let t = text::texts(self.items@);
            assert(s[i as int] == member@);
            assert(t =~= s.remove(i as int));
            assert forall|a: int, b: int| 0 <= a < b < t.len() implies text_less(
                #[trigger] t[a],
                #[trigger] t[b],
            ) by {
                let x = if a < i {
                    a
                } else {
                    a + 1
                };
                let y = if b < i {
                    b
                } else {
                    b + 1
                };
                assert(text_less(s[x], s[y]));
            }
            assert forall|x: Seq<char>| t.to_set().contains(x) == s.to_set().remove(
                member@,
            ).contains(x) by {
                if t.contains(x) {
                    let k = choose|k: int| 0 <= k < t.len() && t[k] == x;
                    let m = if k < i {
                        k
                    } else {
                        k + 1
                    };
                    assert(s[m] == x);
                    law_text_order_strict(s[m], s[i as int]);
                    if m < i {
                        assert(text_less(s[m], s[i as int]));
                    } else {
                        assert(text_less(s[i as int], s[m]));
                    }
                }
                if s.contains(x) && x != member@ {
                    let k = choose|k: int| 0 <= k < s.len() && s[k] == x;
                    if k < i {
                        assert(t[k] == x);
                    } else {
                        assert(t[k - 1] == x);
                    }
                }
            }
            assert(self@ =~= old(self)@.remove(member@));
            assert(s.contains(member@));
        }
        true
    }

    /// Adds every text of `members`.
    pub fn extend(&mut self, members: &Vec<String>)
        requires
            old(self).wf(),
        ensures
            final(self).wf(),
            final(self)@ == old(self)@.union(text::texts(members@).to_set()),
    {
        let ghost s = text::texts(members@);
        let mut i: usize = 0;
        proof {
            assert(self@ =~= old(self)@.union(s.take(0).to_set()));
        }
        while i < members.len()
            invariant
                i <= members.len(),
                self.wf(),
                s == text::texts(members@),
                self@ == old(self)@.union(s.take(i as int).to_set()),
            decreases members.len() - i,
        {
            let ghost was = self@;
            self.insert(members[i].as_str());
            proof {
                let t = s.take(i as int + 1);
                assert forall|x: Seq<char>| t.to_set().contains(x) == s.take(
                    i as int,
                ).to_set().insert(s[i as int]).contains(x) by {
                    if t.contains(x) {
                        let k = choose|k: int| 0 <= k < t.len() && t[k] == x;
                        if k < i {
                            assert(s.take(i as int)[k] == x);
                        }
                    }
                    if s.take(i as int).contains(x) {
                        let k = choose|k: int|
                            0 <= k < s.take(i as int).len() && s.take(i as int)[k] == x;
                        assert(t[k] == x);
                    }
                    assert(t[i as int] == s[i as int]);
                }
                assert(self@ =~= old(self)@.union(t.to_set()));
            }
            i += 1;
        }
        proof {
            assert(s.take(i as int) =~= s);
        }
    }

    /// Turns membership of `member` over.
    pub fn toggle(&mut self, member: &str)
        requires
            old(self).wf(),
        ensures
            final(self).wf(),
            final(self)@ == (if old(self)@.contains(member@) {
                old(self)@.remove(member@)
            } else {
                old(self)@.insert(member@)
            }),
    {
        if !self.remove(member) {
            proof {
                assert(self@ =~= old(self)@);
            }
            self.insert(member);
        }
    }
}

/// Texts are ordered by the first character in which they differ, and a text comes before its
/// continuations.
pub proof fn law_text_order_goes_by_the_first_difference(
    prefix: Seq<char>,
    a: Seq<char>,
    b: Seq<char>,
)
    requires
        a.len() > 0 && b.len() > 0 ==> a[0] != b[0],
    ensures
        text_less(prefix + a, prefix + b) <==> b.len() > 0 && (a.len() == 0 || a[0]
            < b[0]),
    decreases prefix.len(),
{
    if prefix.len() == 0 {
        assert(prefix + a =~= a);
        assert(prefix + b =~= b);
    } else {
        assert((prefix + a)[0] == prefix[0] && (prefix + b)[0] == prefix[0]);
        assert((prefix + a).skip(1) =~= prefix.skip(1) + a);
        assert((prefix + b).skip(1) =~= prefix.skip(1) + b);
        law_text_order_goes_by_the_first_difference(prefix.skip(1), a, b);
    }
}

} // verus!
