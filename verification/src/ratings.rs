//! A small map from names to ratings, kept in the order in which the names
//! were first rated.

use vstd::prelude::*;

verus! {

/// Ratings keyed by a name: a news source, a category or a language.
///
/// No name occurs twice. The entries keep the order in which their names
/// were first inserted; `view` forgets that order.
pub struct RatingMap {
    entries: Vec<(String, i32)>,
    model: Ghost<Map<Seq<char>, i32>>,
}

/// The entries of a rating map, each name taken as its characters.
pub open spec fn entry_views(entries: Seq<(String, i32)>) -> Seq<(Seq<char>, i32)> {
    entries.map_values(|e: (String, i32)| (e.0@, e.1))
}

/// No name occurs twice in a sequence of entries.
pub open spec fn names_distinct(entries: Seq<(Seq<char>, i32)>) -> bool {
    forall|i: int, j: int| 0 <= i < j < entries.len() ==> entries[i].0 != entries[j].0
}

/// The map that a sequence of entries with distinct names stands for.
pub open spec fn agrees_with(entries: Seq<(Seq<char>, i32)>, m: Map<Seq<char>, i32>) -> bool {
    &&& forall|i: int|
        0 <= i < entries.len() ==> #[trigger] m.contains_key(entries[i].0) && m[entries[i].0]
            == entries[i].1
    &&& forall|k: Seq<char>|
        #[trigger] m.contains_key(k) ==> exists|i: int| 0 <= i < entries.len() && entries[i].0 == k
}

impl RatingMap {
    #[verifier::type_invariant]
    spec fn well_formed(self) -> bool {
        &&& names_distinct(entry_views(self.entries@))
        &&& agrees_with(entry_views(self.entries@), self.model@)
    }

    /// The entries in the order in which their names were first inserted.
    pub closed spec fn entries(&self) -> Seq<(Seq<char>, i32)> {
        entry_views(self.entries@)
    }

    /// The entries as a map from name to rating.
    pub closed spec fn view(&self) -> Map<Seq<char>, i32> {
        self.model@
    }

    /// An empty map.
    pub fn new() -> (r: RatingMap)
        ensures
            r@ == Map::<Seq<char>, i32>::empty(),
            r.entries() == Seq::<(Seq<char>, i32)>::empty(),
    {
        let r = RatingMap { entries: Vec::new(), model: Ghost(Map::empty()) };
        assert(entry_views(r.entries@) =~= Seq::empty());
        r
    }

    /// Number of rated names.
    pub fn len(&self) -> (n: usize)
        ensures
            n == self.entries().len(),
    {
        self.entries.len()
    }

    /// The name of the entry at `index`.
    pub fn name_at(&self, index: usize) -> (name: &String)
        requires
            index < self.entries().len(),
        ensures
            name@ == self.entries()[index as int].0,
    {
        &self.entries[index].0
    }

    /// The rating of the entry at `index`.
    pub fn rating_at(&self, index: usize) -> (rating: i32)
        requires
            index < self.entries().len(),
        ensures
            rating == self.entries()[index as int].1,
    {
        self.entries[index].1
    }

    /// Position of `name` among the entries, if it is there.
    fn position(&self, name: &String) -> (r: Option<usize>)
        ensures
            match r {
                Some(i) => i < self.entries().len() && self.entries()[i as int].0 == name@,
                None => forall|i: int|
                    0 <= i < self.entries().len() ==> self.entries()[i].0 != name@,
            },
    {
        let n = self.entries.len();
        let mut i: usize = 0;
        while i < n
            invariant
                n == self.entries@.len(),
                i <= n,
                forall|j: int| 0 <= j < i ==> self.entries()[j].0 != name@,
            decreases n - i,
        {
            if self.entries[i].0 == *name {
                return Some(i);
            }
            i = i + 1;
        }
        None
    }

    /// The rating of `name`, if it has one.
    pub fn get(&self, name: &String) -> (r: Option<i32>)
        ensures
            r == (if self@.contains_key(name@) {
                Some(self@[name@])
            } else {
                None::<i32>
            }),
    {
        proof {
            use_type_invariant(self);
        }
        match self.position(name) {
            Some(i) => {
                assert(self.model@.contains_key(self.entries()[i as int].0));
                Some(self.entries[i].1)
            },
            None => {
                assert(!self.model@.contains_key(name@)) by {
                    if self.model@.contains_key(name@) {
                        let j = choose|j: int|
                            0 <= j < self.entries().len() && self.entries()[j].0 == name@;
                        assert(self.entries()[j].0 != name@);
                    }
                }
                None
            },
        }
    }

    /// Gives `name` the rating `rating`. A name that was rated keeps its
    /// place among the entries; a new name comes last.
    pub fn insert(&mut self, name: String, rating: i32)
        ensures
            final(self)@ == old(self)@.insert(name@, rating),
            old(self)@.contains_key(name@) ==> final(self).entries() == old(self).entries().update(
                index_of_name(old(self).entries(), name@),
                (name@, rating),
            ),
            !old(self)@.contains_key(name@) ==> final(self).entries() == old(self).entries().push(
                (name@, rating),
            ),
    {
        proof {
            use_type_invariant(&*self);
        }
        let ghost old_entries = self.entries();
        let pos = self.position(&name);
        let mut taken = RatingMap::new();
        std::mem::swap(self, &mut taken);
        let RatingMap { mut entries, model } = taken;
        let ghost new_model = model@.insert(name@, rating);
        match pos {
            Some(i) => {
                entries.set(i, (name, rating));
                proof {
                    assert(entry_views(entries@) =~= old_entries.update(i as int, (name@, rating)));
                    assert(model@.contains_key(old_entries[i as int].0));
                    assert(new_model.dom() =~= model@.dom());
                    assert forall|k: Seq<char>| #[trigger]
                        new_model.contains_key(k) implies exists|j: int|
                        0 <= j < entries@.len() && entry_views(entries@)[j].0 == k by {
                        let j = choose|j: int| 0 <= j < old_entries.len() && old_entries[j].0 == k;
                        assert(entry_views(entries@)[j].0 == k);
                    }
                    lemma_index_of_name(old_entries, name@, i as int);
                }
                *self = RatingMap { entries, model: Ghost(new_model) };
            },
            None => {
                entries.push((name, rating));
                proof {
                    assert(entry_views(entries@) =~= old_entries.push((name@, rating)));
                    assert(!model@.contains_key(name@)) by {
                        if model@.contains_key(name@) {
                            let j = choose|j: int|
                                0 <= j < old_entries.len() && old_entries[j].0 == name@;
                            assert(old_entries[j].0 != name@);
                        }
                    }
                    assert forall|k: Seq<char>| #[trigger]
                        new_model.contains_key(k) implies exists|j: int|
                        0 <= j < entries@.len() && entry_views(entries@)[j].0 == k by {
                        if k == name@ {
                            assert(entry_views(entries@)[old_entries.len() as int].0 == k);
                        } else {
                            let j = choose|j: int|
                                0 <= j < old_entries.len() && old_entries[j].0 == k;
                            assert(entry_views(entries@)[j].0 == k);
                        }
                    }
                }
                *self = RatingMap { entries, model: Ghost(new_model) };
            },
        }
    }
}

/// Ratings at or below this value are lifted by one each time a reader
/// dislikes an article, so that filtered names come back now and again.
pub const LOW_RATING_CUTOFF: i32 = -10;

/// A rating after one round of lifting low ratings.
pub open spec fn softened(rating: i32) -> i32 {
    if rating <= LOW_RATING_CUTOFF {
        (rating + 1) as i32
    } else {
        rating
    }
}

impl RatingMap {
    /// Lifts every rating at or below `LOW_RATING_CUTOFF` by one, in place.
    pub fn soften_low_ratings(&mut self)
        ensures
            final(self)@ == old(self)@.map_values(|r: i32| softened(r)),
            final(self).entries() == old(self).entries().map_values(
                |e: (Seq<char>, i32)| (e.0, softened(e.1)),
            ),
    {
        proof {
            use_type_invariant(&*self);
        }
        let ghost old_entries = self.entries();
        let ghost old_model = self@;
        let mut taken = RatingMap::new();
        std::mem::swap(self, &mut taken);
        let RatingMap { mut entries, model } = taken;
        let ghost target = old_entries.map_values(|e: (Seq<char>, i32)| (e.0, softened(e.1)));
        let n = entries.len();
        let mut i: usize = 0;
        while i < n
            invariant
                n == entries@.len(),
                n == old_entries.len(),
                i <= n,
                target == old_entries.map_values(|e: (Seq<char>, i32)| (e.0, softened(e.1))),
                forall|j: int| 0 <= j < i ==> #[trigger] entry_views(entries@)[j] == target[j],
                forall|j: int| i <= j < n ==> #[trigger] entry_views(entries@)[j] == old_entries[j],
            decreases n - i,
        {
            let ghost before = entries@;
            let rating = entries[i].1;
            assert(target[i as int] == (old_entries[i as int].0, softened(old_entries[i as int].1)));
            assert(entry_views(before)[i as int] == old_entries[i as int]);
            if rating <= LOW_RATING_CUTOFF {
                let name = entries[i].0.clone();
                entries.set(i, (name, rating + 1));
                assert(entry_views(entries@) =~= entry_views(before).update(
                    i as int,
                    (old_entries[i as int].0, (rating + 1) as i32),
                ));
            }
            assert(entry_views(entries@)[i as int] == target[i as int]);
            i = i + 1;
        }
        let ghost new_model = old_model.map_values(|r: i32| softened(r));
        proof {
            assert(entry_views(entries@) =~= target);
            assert(new_model.dom() =~= old_model.dom());
            assert forall|j: int| 0 <= j < target.len() implies #[trigger] new_model.contains_key(
                target[j].0,
            ) && new_model[target[j].0] == target[j].1 by {
                assert(old_model.contains_key(old_entries[j].0));
            }
            assert forall|k: Seq<char>| #[trigger]
                new_model.contains_key(k) implies exists|j: int|
                0 <= j < target.len() && target[j].0 == k by {
                let j = choose|j: int| 0 <= j < old_entries.len() && old_entries[j].0 == k;
                assert(target[j].0 == k);
            }
        }
        *self = RatingMap { entries, model: Ghost(new_model) };
    }
}

/// A position at which `name` occurs among the entries.
pub open spec fn index_of_name(entries: Seq<(Seq<char>, i32)>, name: Seq<char>) -> int {
    choose|i: int| 0 <= i < entries.len() && entries[i].0 == name
}

/// In entries with distinct names, the position of a name is the one at
/// which it occurs.
pub proof fn lemma_index_of_name(entries: Seq<(Seq<char>, i32)>, name: Seq<char>, i: int)
    requires
        names_distinct(entries),
        0 <= i < entries.len(),
        entries[i].0 == name,
    ensures
        index_of_name(entries, name) == i,
{
    let j = index_of_name(entries, name);
    assert(0 <= j < entries.len() && entries[j].0 == name);
}

} // verus!
