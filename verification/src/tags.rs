//! Tags: sets of tag names kept in the order of `str`, the words a user types
//! to add tags, and what changes when a tag list is edited.

use vstd::prelude::*;

use crate::words::{ascii_words, split_ascii_whitespace};
use crate::text::{
    texts_of,
    compare_text, lemma_text_less_asymmetric, lemma_text_less_irreflexive,
    lemma_text_less_transitive, text_less, TextOrder,
};

verus! {

/// Each tag comes strictly before the next in the order of `str`; so no tag
/// occurs twice.
pub open spec fn tags_sorted(s: Seq<Seq<char>>) -> bool {
    forall|i: int, j: int| 0 <= i < j < s.len() ==> text_less(#[trigger] s[i], #[trigger] s[j])
}

/// A sorted list holds no tag twice.
pub proof fn lemma_sorted_no_duplicates(s: Seq<Seq<char>>)
    requires
        tags_sorted(s),
    ensures
        s.no_duplicates(),
{
    assert forall|i: int, j: int| 0 <= i < s.len() && 0 <= j < s.len() && i != j implies s[i]
        != s[j] by {
        if i < j {
            lemma_text_less_irreflexive(s[i]);
        } else {
            lemma_text_less_irreflexive(s[j]);
        }
    }
}

/// Two sorted lists with the same tags are the same list: a set of tags has
/// one sorted order.
pub proof fn lemma_sorted_unique(a: Seq<Seq<char>>, b: Seq<Seq<char>>)
    requires
        tags_sorted(a),
        tags_sorted(b),
        forall|t: Seq<char>| a.contains(t) <==> b.contains(t),
    ensures
        a == b,
    decreases a.len(),
{
    if a.len() == 0 {
        if b.len() > 0 {
            assert(b.contains(b[0]));
        }
        assert(a =~= b);
    } else {
        assert(a.contains(a[0]));
        let j = choose|j: int| 0 <= j < b.len() && b[j] == a[0];
        assert(b.contains(b[0]));
        let k = choose|k: int| 0 <= k < a.len() && a[k] == b[0];
        if j > 0 {
            assert(text_less(b[0], b[j]));
            if k == 0 {
                lemma_text_less_irreflexive(b[0]);
            } else {
                assert(text_less(a[0], a[k]));
                lemma_text_less_asymmetric(b[0], a[0]);
            }
        }
        assert(a[0] == b[0]);
        let a1 = a.drop_first();
        let b1 = b.drop_first();
        assert forall|t: Seq<char>| a1.contains(t) <==> b1.contains(t) by {
            if a1.contains(t) {
                let i = choose|i: int| 0 <= i < a1.len() && a1[i] == t;
                assert(a[i + 1] == t);
                assert(text_less(a[0], a[i + 1]));
                lemma_text_less_irreflexive(t);
                assert(b.contains(t));
                let i2 = choose|i2: int| 0 <= i2 < b.len() && b[i2] == t;
                assert(i2 != 0);
                assert(b1[i2 - 1] == t);
            }
            if b1.contains(t) {
                let i = choose|i: int| 0 <= i < b1.len() && b1[i] == t;
                assert(b[i + 1] == t);
                assert(text_less(b[0], b[i + 1]));
                lemma_text_less_irreflexive(t);
                assert(a.contains(t));
                let i2 = choose|i2: int| 0 <= i2 < a.len() && a[i2] == t;
                assert(i2 != 0);
                assert(a1[i2 - 1] == t);
            }
        }
        lemma_sorted_unique(a1, b1);
        assert(a =~= seq![a[0]] + a1);
        assert(b =~= seq![b[0]] + b1);
    }
}

/// What a list holds once an item is pushed.
pub proof fn lemma_push_contains<A>(s: Seq<A>, x: A)
    ensures
        forall|t: A| #[trigger] s.push(x).contains(t) <==> s.contains(t) || t == x,
{
    assert forall|t: A| #[trigger] s.push(x).contains(t) <==> s.contains(t) || t == x by {
        if s.contains(t) {
            let k = choose|k: int| 0 <= k < s.len() && s[k] == t;
            assert(s.push(x)[k] == t);
        }
        if s.push(x).contains(t) {
            let k = choose|k: int| 0 <= k < s.push(x).len() && s.push(x)[k] == t;
            if k < s.len() {
                assert(s[k] == t);
            }
        }
        if t == x {
            assert(s.push(x)[s.len() as int] == t);
        }
    }
}

/// A set of tag names, kept sorted in the order of `str` (the order in which a
/// `BTreeSet<String>` holds them).
pub struct TagSet {
    tags: Vec<String>,
}

impl View for TagSet {
    type V = Seq<Seq<char>>;

    /// The tags, in order.
    closed spec fn view(&self) -> Seq<Seq<char>> {
        texts_of(self.tags@)
    }
}

impl TagSet {
    #[verifier::type_invariant]
    pub(crate) closed spec fn sorted(self) -> bool {
        tags_sorted(texts_of(self.tags@))
    }

    /// What the invariant of a set says of its tags: they are in order.
    pub(crate) proof fn lemma_sorted(&self)
        requires
            self.sorted(),
        ensures
            tags_sorted(self@),
    {
    }

    /// An empty set.
    pub fn new() -> (set: TagSet)
        ensures
            set@ == Seq::<Seq<char>>::empty(),
    {
        let set = TagSet { tags: Vec::new() };
        assert(set@ =~= Seq::<Seq<char>>::empty());
        set
    }

    /// The number of tags.
    pub fn len(&self) -> (n: usize)
        ensures
            n == self@.len(),
    {
        self.tags.len()
    }

    /// Where `tag` stands in the set, or where it would be inserted.
    fn position(&self, tag: &str) -> (res: (usize, bool))
        ensures
            res.0 <= self@.len(),
            forall|k: int| 0 <= k < res.0 ==> text_less(#[trigger] self@[k], tag@),
            res.1 ==> res.0 < self@.len() && self@[res.0 as int] == tag@,
            !res.1 ==> forall|k: int| res.0 <= k < self@.len() ==> text_less(tag@, #[trigger] self@[k]),
            res.1 <==> self@.contains(tag@),
    {
        proof {
            use_type_invariant(self);
        }
        let n = self.tags.len();
        let mut i: usize = 0;
        while i < n
            invariant
                n == self@.len(),
                n == self.tags@.len(),
                i <= n,
                tags_sorted(self@),
                forall|k: int| 0 <= k < i ==> text_less(#[trigger] self@[k], tag@),
            decreases n - i,
        {
            assert(self@[i as int] == self.tags@[i as int]@);
            match compare_text(self.tags[i].as_str(), tag) {
                TextOrder::Less => {
                    i = i + 1;
                },
                TextOrder::Equal => {
                    proof {
                        assert(self@.contains(tag@));
                    }
                    return (i, true);
                },
                TextOrder::Greater => {
                    proof {
                        assert forall|k: int| i <= k < self@.len() implies text_less(
                            tag@,
                            #[trigger] self@[k],
                        ) by {
                            if k > i {
                                lemma_text_less_transitive(tag@, self@[i as int], self@[k]);
                            }
                        }
                        self.lemma_absent_between(tag@, i as int);
                    }
                    return (i, false);
                },
            }
        }
        proof {
            self.lemma_absent_between(tag@, n as int);
        }
        (n, false)
    }

    proof fn lemma_absent_between(&self, tag: Seq<char>, i: int)
        requires
            0 <= i <= self@.len(),
            forall|k: int| 0 <= k < i ==> text_less(#[trigger] self@[k], tag),
            forall|k: int| i <= k < self@.len() ==> text_less(tag, #[trigger] self@[k]),
        ensures
            !self@.contains(tag),
    {
        if self@.contains(tag) {
            let k = choose|k: int| 0 <= k < self@.len() && self@[k] == tag;
            lemma_text_less_irreflexive(tag);
        }
    }

    /// Whether `tag` is in the set.
    pub fn contains(&self, tag: &str) -> (b: bool)
        ensures
            b == self@.contains(tag@),
    {
        self.position(tag).1
    }

    /// Adds `tag`; answers whether it was not there before.
    pub fn insert(&mut self, tag: String) -> (added: bool)
        ensures
            added == !old(self)@.contains(tag@),
            forall|t: Seq<char>| #[trigger] final(self)@.contains(t) <==> old(self)@.contains(t)
                || t == tag@,
            tags_sorted(final(self)@),
    {
        proof {
            use_type_invariant(&*self);
        }
        let (i, found) = self.position(tag.as_str());
        if found {
            return false;
        }
        let ghost before = self@;
        let ghost t = tag@;
        proof {
            let after = before.insert(i as int, t);
            assert forall|a: int, b: int| 0 <= a < b < after.len() implies text_less(
                #[trigger] after[a],
                #[trigger] after[b],
            ) by {
                if b < i {
                } else if a < i && b == i {
                } else if a < i {
                    assert(after[b] == before[b - 1]);
                    lemma_text_less_transitive(before[a], t, before[b - 1]);
                } else if a == i {
                    assert(after[b] == before[b - 1]);
                } else {
                    assert(after[a] == before[a - 1]);
                    assert(after[b] == before[b - 1]);
                }
            }
            assert(texts_of(self.tags@.insert(i as int, tag)) =~= after);
        }
        let mut tags: Vec<String> = Vec::new();
        assert(texts_of(tags@) =~= Seq::<Seq<char>>::empty());
        std::mem::swap(&mut tags, &mut self.tags);
        tags.insert(i, tag);
        self.tags = tags;
        proof {
            assert(self@ =~= before.insert(i as int, t));
            assert forall|x: Seq<char>| #[trigger] self@.contains(x) <==> before.contains(x) || x
                == t by {
                if self@.contains(x) {
                    let k = choose|k: int| 0 <= k < self@.len() && self@[k] == x;
                    if k < i {
                        assert(before[k] == x);
                    } else if k > i {
                        assert(before[k - 1] == x);
                    }
                }
                if before.contains(x) {
                    let k = choose|k: int| 0 <= k < before.len() && before[k] == x;
                    if k < i {
                        assert(self@[k] == x);
                    } else {
                        assert(self@[k + 1] == x);
                    }
                }
                if x == t {
                    assert(self@[i as int] == x);
                }
            }
        }
        true
    }

    /// Removes `tag`; answers whether it was there.
    pub fn remove(&mut self, tag: &str) -> (removed: bool)
        ensures
            removed == old(self)@.contains(tag@),
            forall|t: Seq<char>| #[trigger] final(self)@.contains(t) <==> old(self)@.contains(t)
                && t != tag@,
            tags_sorted(final(self)@),
    {
        proof {
            use_type_invariant(&*self);
        }
        let (i, found) = self.position(tag);
        if !found {
            return false;
        }
        let ghost before = self@;
        proof {
            let after = before.remove(i as int);
            assert forall|a: int, b: int| 0 <= a < b < after.len() implies text_less(
                #[trigger] after[a],
                #[trigger] after[b],
            ) by {
                if b < i {
                } else if a < i {
                    assert(after[b] == before[b + 1]);
                } else {
                    assert(after[a] == before[a + 1]);
                    assert(after[b] == before[b + 1]);
                }
            }
            assert(texts_of(self.tags@.remove(i as int)) =~= after);
        }
        let mut tags: Vec<String> = Vec::new();
        assert(texts_of(tags@) =~= Seq::<Seq<char>>::empty());
        std::mem::swap(&mut tags, &mut self.tags);
        tags.remove(i);
        self.tags = tags;
        proof {
            assert(self@ =~= before.remove(i as int));
            lemma_sorted_no_duplicates(before);
            assert forall|x: Seq<char>| #[trigger] self@.contains(x) <==> before.contains(x) && x
                != tag@ by {
                if self@.contains(x) {
                    let k = choose|k: int| 0 <= k < self@.len() && self@[k] == x;
                    if k < i {
                        assert(before[k] == x);
                        assert(k != i);
                    } else {
                        assert(before[k + 1] == x);
                    }
                }
                if before.contains(x) && x != tag@ {
                    let k = choose|k: int| 0 <= k < before.len() && before[k] == x;
                    if k < i {
                        assert(self@[k] == x);
                    } else {
                        assert(k != i);
                        assert(self@[k - 1] == x);
                    }
                }
            }
        }
        true
    }

    /// The tags, in order.
    pub fn as_vec(&self) -> (v: &Vec<String>)
        ensures
            texts_of(v@) == self@,
    {
        &self.tags
    }

    /// A copy of the tags, in order.
    pub fn to_vec(&self) -> (v: Vec<String>)
        ensures
            texts_of(v@) == self@,
    {
        let mut v: Vec<String> = Vec::new();
        let n = self.tags.len();
        for i in 0..n
            invariant
                n == self.tags@.len(),
                v@.len() == i,
                forall|k: int| 0 <= k < i ==> #[trigger] v@[k]@ == self.tags@[k]@,
        {
            v.push(self.tags[i].clone());
        }
        assert(texts_of(v@) =~= self@);
        v
    }

    /// A second set holding the same tags.
    pub fn duplicate(&self) -> (copy: TagSet)
        ensures
            copy@ == self@,
    {
        proof {
            use_type_invariant(self);
        }
        TagSet { tags: self.to_vec() }
    }

    /// The set of the given tags; a tag given twice is held once.
    pub fn from_vec(tags: Vec<String>) -> (set: TagSet)
        ensures
            forall|t: Seq<char>| #[trigger] set@.contains(t) <==> texts_of(tags@).contains(t),
            tags_sorted(set@),
    {
        let mut set = TagSet::new();
        let n = tags.len();
        for i in 0..n
            invariant
                n == tags@.len(),
                forall|t: Seq<char>| #[trigger] set@.contains(t) <==> texts_of(tags@).take(
                    i as int,
                ).contains(t),
        {
            set.insert(tags[i].clone());
            proof {
                let pre = texts_of(tags@).take(i as int);
                assert(texts_of(tags@).take(i + 1) =~= pre.push(tags@[i as int]@));
                lemma_push_contains(pre, tags@[i as int]@);
            }
        }
        assert(texts_of(tags@).take(n as int) =~= texts_of(tags@));
        proof {
            use_type_invariant(&set);
        }
        set
    }

    /// Adds every word of `input`: the tag editor's field, split at ASCII whitespace.
    pub fn extend_from_input(&mut self, input: &str)
        ensures
            forall|t: Seq<char>| #[trigger] final(self)@.contains(t) <==> old(self)@.contains(t)
                || ascii_words(input@).contains(t),
            tags_sorted(final(self)@),
    {
        let words = split_ascii_whitespace(input);
        let ghost start = self@;
        let ghost ws = texts_of(words@);
        let n = words.len();
        for i in 0..n
            invariant
                n == words@.len(),
                ws == texts_of(words@),
                forall|t: Seq<char>| #[trigger] self@.contains(t) <==> start.contains(t)
                    || ws.take(i as int).contains(t),
        {
            self.insert(words[i].clone());
            proof {
                let pre = ws.take(i as int);
                assert(ws.take(i + 1) =~= pre.push(words@[i as int]@));
                lemma_push_contains(pre, words@[i as int]@);
            }
        }
        assert(ws.take(n as int) =~= ws);
        proof {
            use_type_invariant(&*self);
        }
    }

    /// The tags of this set that are not in `other`, in order.
    pub fn difference(&self, other: &TagSet) -> (d: TagSet)
        ensures
            is_difference(d@, self@, other@),
    {
        proof {
            use_type_invariant(self);
        }
        let mut res: Vec<String> = Vec::new();
        let n = self.tags.len();
        for i in 0..n
            invariant
                n == self.tags@.len(),
                tags_sorted(self@),
                tags_sorted(texts_of(res@)),
                forall|k: int, m: int|
                    0 <= k < res@.len() && i <= m < n ==> text_less(
                        #[trigger] texts_of(res@)[k],
                        #[trigger] self@[m],
                    ),
                forall|t: Seq<char>| #[trigger] texts_of(res@).contains(t) <==> self@.take(
                    i as int,
                ).contains(t) && !other@.contains(t),
        {
            let ghost before = texts_of(res@);
            let ghost x = self@[i as int];
            let keep = !other.contains(self.tags[i].as_str());
            if keep {
                res.push(self.tags[i].clone());
                proof {
                    assert(texts_of(res@) =~= before.push(x));
                    assert forall|a: int, b: int| 0 <= a < b < texts_of(res@).len() implies text_less(
                        #[trigger] texts_of(res@)[a],
                        #[trigger] texts_of(res@)[b],
                    ) by {
                        if b == before.len() {
                            assert(text_less(before[a], self@[i as int]));
                        } else {
                            assert(texts_of(res@)[a] == before[a]);
                            assert(texts_of(res@)[b] == before[b]);
                        }
                    }
                    assert forall|k: int, m: int|
                        0 <= k < res@.len() && i + 1 <= m < n implies text_less(
                        #[trigger] texts_of(res@)[k],
                        #[trigger] self@[m],
                    ) by {
                        if k == before.len() {
                        } else {
                            assert(texts_of(res@)[k] == before[k]);
                        }
                    }
                }
            }
            proof {
                let pre = self@.take(i as int);
                let post = self@.take(i + 1);
                assert(post =~= pre.push(x));
                lemma_push_contains(pre, x);
                lemma_push_contains(before, x);
                if keep {
                    assert(texts_of(res@) == before.push(x));
                } else {
                    assert(texts_of(res@) == before);
                }
            }
        }
        assert(self@.take(n as int) =~= self@);
        TagSet { tags: res }
    }

    /// Whether both sets hold the same tags.
    pub fn same_tags(&self, other: &TagSet) -> (b: bool)
        ensures
            b == (self@ == other@),
            b == (forall|t: Seq<char>| self@.contains(t) <==> other@.contains(t)),
    {
        proof {
            use_type_invariant(self);
            use_type_invariant(other);
        }
        let n = self.tags.len();
        if n != other.tags.len() {
            proof {
                if forall|t: Seq<char>| self@.contains(t) <==> other@.contains(t) {
                    lemma_sorted_unique(self@, other@);
                }
            }
            return false;
        }
        for i in 0..n
            invariant
                n == self.tags@.len(),
                n == other.tags@.len(),
                tags_sorted(self@),
                tags_sorted(other@),
                forall|k: int| 0 <= k < i ==> #[trigger] self@[k] == other@[k],
        {
            if !crate::text::same_text(self.tags[i].as_str(), other.tags[i].as_str()) {
                proof {
                    assert(self@[i as int] != other@[i as int]);
                    if forall|t: Seq<char>| self@.contains(t) <==> other@.contains(t) {
                        lemma_sorted_unique(self@, other@);
                    }
                }
                return false;
            }
        }
        assert(self@ =~= other@);
        true
    }
}

/// `d` lists, in order, the tags of `a` that are not in `b`.
pub open spec fn is_difference(d: Seq<Seq<char>>, a: Seq<Seq<char>>, b: Seq<Seq<char>>) -> bool {
    &&& tags_sorted(d)
    &&& forall|t: Seq<char>| #[trigger] d.contains(t) <==> a.contains(t) && !b.contains(t)
}

/// The tags added and the tags removed when a tag list goes from `old` to `new`.
pub fn tags_to_diff(new: TagSet, old: TagSet) -> (diff: (TagSet, TagSet))
    ensures
        is_difference(diff.0@, new@, old@),
        is_difference(diff.1@, old@, new@),
{
    let added = new.difference(&old);
    let removed = old.difference(&new);
    (added, removed)
}

/// A difference is determined by what it must hold: there is one sorted list
/// of the tags of `a` that are not in `b`.
pub proof fn lemma_difference_unique(
    d1: Seq<Seq<char>>,
    d2: Seq<Seq<char>>,
    a: Seq<Seq<char>>,
    b: Seq<Seq<char>>,
)
    requires
        is_difference(d1, a, b),
        is_difference(d2, a, b),
    ensures
        d1 == d2,
{
    lemma_sorted_unique(d1, d2);
}

/// What an edit of a tag list sends: nothing is both added and removed;
/// removing what was removed and adding what was added turns the old list into
/// the new one; diffing the added tags against the removed ones gives them
/// back unchanged (so the server, which diffs what it receives once more,
/// applies the same change); and an edit that changes nothing sends nothing.
pub proof fn lemma_tag_diff(
    new: Seq<Seq<char>>,
    old: Seq<Seq<char>>,
    added: Seq<Seq<char>>,
    removed: Seq<Seq<char>>,
)
    requires
        tags_sorted(new),
        tags_sorted(old),
        is_difference(added, new, old),
        is_difference(removed, old, new),
    ensures
        forall|t: Seq<char>| !(#[trigger] added.contains(t) && removed.contains(t)),
        forall|t: Seq<char>| #[trigger] new.contains(t) <==> (old.contains(t) && !removed.contains(
            t,
        )) || added.contains(t),
        is_difference(added, added, removed),
        is_difference(removed, removed, added),
        (forall|t: Seq<char>| new.contains(t) <==> old.contains(t)) ==> added.len() == 0
            && removed.len() == 0,
{
    if forall|t: Seq<char>| new.contains(t) <==> old.contains(t) {
        if added.len() > 0 {
            assert(added.contains(added[0]));
        }
        if removed.len() > 0 {
            assert(removed.contains(removed[0]));
        }
    }
}

} // verus!
