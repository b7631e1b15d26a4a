//! The vertices of the diagram, computed once per selection.
//!
//! Computing the vertices of a diagram, and uploading them, is expensive.
//! The cache keeps what was computed for each observer and RGB space, and
//! computes it only the first time that selection is drawn.

use vstd::prelude::*;
use crate::selection::DiagramSelection;

verus! {

/// The cache after `key` was made sure to be present, with `value` computed
/// for it if it was absent: a value already present stays.
pub open spec fn map_after_ensure<V>(
    map: Map<DiagramSelection, V>,
    key: DiagramSelection,
    value: V,
) -> Map<DiagramSelection, V> {
    if map.contains_key(key) {
        map
    } else {
        map.insert(key, value)
    }
}

/// Values computed for diagram selections, each selection at most once.
pub struct VertexCache<V> {
    entries: Vec<(DiagramSelection, V)>,
}

impl<V> VertexCache<V> {
    /// No selection occurs twice among the entries.
    #[verifier::type_invariant]
    spec fn keys_distinct(self) -> bool {
        forall|i: int, j: int|
            0 <= i < j < self.entries@.len() ==> (#[trigger] self.entries@[i]).0 != (#[trigger] self.entries@[j]).0
    }

    spec fn position_of(self, key: DiagramSelection) -> int {
        choose|i: int| 0 <= i < self.entries@.len() && self.entries@[i].0 == key
    }

    spec fn holds(self, key: DiagramSelection) -> bool {
        exists|i: int| 0 <= i < self.entries@.len() && self.entries@[i].0 == key
    }

    /// With distinct keys, the entry found for a key is the only one.
    proof fn lemma_position_unique(self, key: DiagramSelection, i: int)
        requires
            self.keys_distinct(),
            0 <= i < self.entries@.len(),
            self.entries@[i].0 == key,
        ensures
            self.holds(key),
            self.position_of(key) == i,
    {
        assert(self.holds(key));
        let p = self.position_of(key);
        if p < i {
            assert(self.entries@[p].0 != self.entries@[i].0);
        } else if p > i {
            assert(self.entries@[i].0 != self.entries@[p].0);
        }
    }
}

impl<V> View for VertexCache<V> {
    type V = Map<DiagramSelection, V>;

    closed spec fn view(&self) -> Map<DiagramSelection, V> {
        Map::new(|key: DiagramSelection| self.holds(key), |key: DiagramSelection| self.entries@[self.position_of(key)].1)
    }
}

impl<V> VertexCache<V> {
    /// An empty cache.
    pub fn new() -> (cache: Self)
        ensures
            cache@ == Map::<DiagramSelection, V>::empty(),
    {
        let cache = VertexCache { entries: Vec::new() };
        assert(cache@ =~= Map::<DiagramSelection, V>::empty());
        cache
    }

    /// Finds the position of the entry for `key`, if there is one.
    fn find(&self, key: DiagramSelection) -> (position: Option<usize>)
        ensures
            match position {
                Some(i) => i < self.entries@.len() && self.entries@[i as int].0 == key
                    && self.position_of(key) == i,
                None => !self.holds(key),
            },
    {
        proof {
            use_type_invariant(self);
        }
        let mut i: usize = 0;
        while i < self.entries.len()
            invariant
                i <= self.entries@.len(),
                forall|j: int| 0 <= j < i ==> (#[trigger] self.entries@[j]).0 != key,
            decreases self.entries@.len() - i,
        {
            if self.entries[i].0 == key {
                proof {
                    use_type_invariant(self);
                    self.lemma_position_unique(key, i as int);
                }
                return Some(i);
            }
            i += 1;
        }
        None
    }

    /// Whether a value was computed for `key`.
    pub fn contains(&self, key: DiagramSelection) -> (present: bool)
        ensures
            present == self@.contains_key(key),
    {
        self.find(key).is_some()
    }

    /// The value computed for `key`, if there is one.
    pub fn get(&self, key: DiagramSelection) -> (value: Option<&V>)
        ensures
            match value {
                Some(v) => self@.contains_key(key) && *v == self@[key],
                None => !self@.contains_key(key),
            },
    {
        match self.find(key) {
            Some(i) => Some(&self.entries[i].1),
            None => None,
        }
    }

    /// Makes sure a value is present for `key`: calls `compute` and keeps
    /// its result when none is, and leaves the cache as it is otherwise.
    /// Returns whether `compute` was called.
    ///
    /// `compute` need only be callable when `key` is absent: when the cache
    /// already holds `key`, `compute` is not called at all, so a closure
    /// that may not be called then is a valid argument.
    pub fn ensure_with<F: FnOnce() -> V>(&mut self, key: DiagramSelection, compute: F) -> (computed: bool)
        requires
            !old(self)@.contains_key(key) ==> compute.requires(()),
        ensures
            computed == !old(self)@.contains_key(key),
            !computed ==> final(self)@ == old(self)@,
            computed ==> exists|v: V|
                compute.ensures((), v) && final(self)@ == map_after_ensure(old(self)@, key, v),
            final(self)@.contains_key(key),
    {
        proof {
            use_type_invariant(&*self);
        }
        if self.find(key).is_some() {
            return false;
        }
        let value = compute();
        let ghost before = *self;
        let ghost old_entries = self.entries@;
        let ghost old_view = self@;
        let mut entries: Vec<(DiagramSelection, V)> = Vec::new();
        std::mem::swap(&mut entries, &mut self.entries);
        assert(entries@ == old_entries);
        entries.push((key, value));
        assert forall|i: int, j: int| 0 <= i < j < entries@.len() implies (#[trigger] entries@[i]).0
            != (#[trigger] entries@[j]).0 by {
            if j == old_entries.len() {
                assert(entries@[i] == old_entries[i]);
            } else {
                assert(entries@[i] == old_entries[i]);
                assert(entries@[j] == old_entries[j]);
            }
        }
        self.entries = entries;
        proof {
            let n = old_entries.len() as int;
            assert(self.entries@[n] == (key, value));
            self.lemma_position_unique(key, n);
            assert forall|k: DiagramSelection| #[trigger] old_view.contains_key(k) implies self.holds(k)
                && self.entries@[self.position_of(k)].1 == old_view[k] by {
                let i = choose|i: int| 0 <= i < old_entries.len() && old_entries[i].0 == k;
                assert(self.entries@[i] == old_entries[i]);
                self.lemma_position_unique(k, i);
                before.lemma_position_unique(k, i);
            }
            assert forall|k: DiagramSelection| #[trigger] self.holds(k) implies old_view.contains_key(k) || k == key by {
                let i = choose|i: int| 0 <= i < self.entries@.len() && self.entries@[i].0 == k;
                if i < n {
                    assert(old_entries[i].0 == k);
                }
            }
            assert(self@ =~= old_view.insert(key, value));
            assert(self@ == map_after_ensure(old_view, key, value));
        }
        true
    }
}

/// A value, once computed for a selection, is the one the cache keeps:
/// making sure of the selection again changes nothing, whatever a second
/// computation would give, and every other selection keeps its value.
pub proof fn lemma_first_value_stays<V>(
    map: Map<DiagramSelection, V>,
    key: DiagramSelection,
    first: V,
    second: V,
)
    ensures
        map_after_ensure(map, key, first).contains_key(key),
        map_after_ensure(map_after_ensure(map, key, first), key, second) == map_after_ensure(map, key, first),
        map.contains_key(key) ==> map_after_ensure(map, key, first)[key] == map[key],
        !map.contains_key(key) ==> map_after_ensure(map, key, first)[key] == first,
        forall|other: DiagramSelection|
            other != key ==> (#[trigger] map_after_ensure(map, key, first).contains_key(other)
                == map.contains_key(other)) && (map.contains_key(other) ==> map_after_ensure(
                map,
                key,
                first,
            )[other] == map[other]),
{
}

} // verus!
