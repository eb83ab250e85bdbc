//! Candidate suggestions and the cached suggestion set.
//!
//! A `SuggestionSet` holds the ordered candidates produced by the most recent
//! completed refresh together with one active index. Cycling rotates the
//! active index over the already-fetched candidates; it never refetches.
//! Populating the set deduplicates: a candidate identical in text and range
//! to one already present is dropped rather than appended.

use vstd::prelude::*;

verus! {

/// Which neighbouring candidate `cycle` moves the active index to.
#[derive(Clone, Copy, PartialEq, Eq, Structural, Debug)]
pub enum Direction {
    Prev,
    Next,
}

/// A single candidate edit: an identifier used for accept/reject
/// notifications, a half-open range of the buffer positions it replaces, and
/// the replacement text.
#[derive(Debug)]
pub struct Suggestion {
    pub id: u64,
    pub range_start: usize,
    pub range_end: usize,
    pub text: String,
}

impl Suggestion {
    /// The replaced range is ordered.
    pub open spec fn wf(self) -> bool {
        self.range_start <= self.range_end
    }

    /// Two candidates count as the same entry when their text and range
    /// agree; the identifier does not matter for deduplication.
    pub open spec fn same_candidate(self, other: Suggestion) -> bool {
        &&& self.text@ == other.text@
        &&& self.range_start == other.range_start
        &&& self.range_end == other.range_end
    }
}

impl Clone for Suggestion {
    fn clone(&self) -> (res: Self)
        ensures
            res == *self,
    {
        Suggestion {
            id: self.id,
            range_start: self.range_start,
            range_end: self.range_end,
            text: self.text.clone(),
        }
    }
}

/// Whether some entry of `s` is the same candidate as `c`.
pub open spec fn contains_candidate(s: Seq<Suggestion>, c: Suggestion) -> bool {
    exists|i: int| 0 <= i < s.len() && (#[trigger] s[i]).same_candidate(c)
}

/// No two entries of `s` are the same candidate.
pub open spec fn candidates_distinct(s: Seq<Suggestion>) -> bool {
    forall|i: int, j: int|
        0 <= i < j < s.len() ==> !(#[trigger] s[i]).same_candidate(#[trigger] s[j])
}

/// What appending a candidate to a deduplicated sequence yields.
pub open spec fn spec_push(s: Seq<Suggestion>, c: Suggestion) -> Seq<Suggestion> {
    if contains_candidate(s, c) {
        s
    } else {
        s.push(c)
    }
}

/// The ordered candidates of the most recent completed refresh, plus the
/// index of the currently active one.
pub struct SuggestionSet {
    pub suggestions: Vec<Suggestion>,
    pub active_index: usize,
}

/// The active index a cycle step moves to: forward wraps from the last
/// candidate to the first, backward wraps from the first to the last. On an
/// empty set the index stays where it is.
pub open spec fn spec_cycle_index(len: nat, i: nat, direction: Direction) -> nat {
    if len == 0 {
        i
    } else {
        match direction {
            Direction::Next => if i + 1 < len {
                i + 1
            } else {
                0
            },
            Direction::Prev => if i == 0 {
                (len - 1) as nat
            } else {
                (i - 1) as nat
            },
        }
    }
}

impl SuggestionSet {
    /// The active index points at a candidate whenever one exists, sits at 0
    /// otherwise, every candidate's range is ordered, and no candidate
    /// occurs twice.
    pub open spec fn wf(self) -> bool {
        &&& self.suggestions.len() == 0 ==> self.active_index == 0
        &&& self.suggestions.len() > 0 ==> self.active_index < self.suggestions.len()
        &&& forall|i: int| 0 <= i < self.suggestions.len() ==> (#[trigger] self.suggestions@[i]).wf()
        &&& candidates_distinct(self.suggestions@)
    }

    /// The candidate the active index selects, if the set is non-empty.
    pub open spec fn spec_active(self) -> Option<Suggestion> {
        if self.suggestions.len() > 0 && self.active_index < self.suggestions.len() {
            Some(self.suggestions[self.active_index as int])
        } else {
            None
        }
    }

    pub fn new() -> (r: SuggestionSet)
        ensures
            r.wf(),
            r.suggestions@ == Seq::<Suggestion>::empty(),
            r.active_index == 0,
    {
        SuggestionSet { suggestions: Vec::new(), active_index: 0 }
    }

    pub fn len(&self) -> (n: usize)
        ensures
            n == self.suggestions.len(),
    {
        self.suggestions.len()
    }

    /// Discards every candidate and resets the active index to 0.
    pub fn clear(&mut self)
        ensures
            final(self).wf(),
            final(self).suggestions@ == Seq::<Suggestion>::empty(),
            final(self).active_index == 0,
    {
        self.suggestions.clear();
        self.active_index = 0;
    }

    /// The currently active candidate, if any.
    pub fn active(&self) -> (r: Option<&Suggestion>)
        requires
            self.wf(),
        ensures
            r == match self.spec_active() {
                Some(_) => Some(&self.suggestions[self.active_index as int]),
                None => None::<&Suggestion>,
            },
            r is Some <==> self.suggestions.len() > 0,
    {
        if self.suggestions.len() > 0 {
            Some(&self.suggestions[self.active_index])
        } else {
            None
        }
    }

    /// Appends a candidate unless an identical one (same text and range) is
    /// already present, in which case the set is left unchanged.
    pub fn push(&mut self, c: Suggestion)
        requires
            old(self).wf(),
            c.wf(),
        ensures
            final(self).wf(),
            final(self).active_index == old(self).active_index,
            final(self).suggestions@ == spec_push(old(self).suggestions@, c),
    {
        let n = self.suggestions.len();
        let mut i: usize = 0;
        while i < n
            invariant
                old(self).wf(),
                *self == *old(self),
                n == self.suggestions.len(),
                i <= n,
                forall|k: int| 0 <= k < i ==> !(#[trigger] self.suggestions@[k]).same_candidate(c),
            decreases n - i,
        {
            if is_same_candidate(&self.suggestions[i], &c) {
                proof {
                    assert(contains_candidate(self.suggestions@, c));
                }
                return ;
            }
            i = i + 1;
        }
        proof {
            assert(!contains_candidate(self.suggestions@, c));
        }
        self.suggestions.push(c);
        proof {
            assert forall|a: int, b: int| 0 <= a < b < self.suggestions@.len() implies !(
            #[trigger] self.suggestions@[a]).same_candidate(#[trigger] self.suggestions@[b]) by {
                if b < self.suggestions@.len() - 1 {
                    assert(old(self).suggestions@[a] == self.suggestions@[a]);
                    assert(old(self).suggestions@[b] == self.suggestions@[b]);
                }
            }
        }
    }

    /// Rotates the active index one step without touching the candidates; on
    /// an empty set this is a no-op.
    pub fn cycle(&mut self, direction: Direction)
        requires
            old(self).wf(),
        ensures
            final(self).wf(),
            final(self).suggestions == old(self).suggestions,
            final(self).active_index == spec_cycle_index(
                old(self).suggestions.len() as nat,
                old(self).active_index as nat,
                direction,
            ),
            old(self).suggestions.len() == 0 ==> final(self).active_index == old(
                self,
            ).active_index,
    {
        let n = self.suggestions.len();
        if n == 0 {
            return ;
        }
        self.active_index = match direction {
            Direction::Next => if self.active_index + 1 < n {
                self.active_index + 1
            } else {
                0
            },
            Direction::Prev => if self.active_index == 0 {
                n - 1
            } else {
                self.active_index - 1
            },
        };
    }
}

/// Whether `a` and `b` are the same candidate (identical text and range).
pub fn is_same_candidate(a: &Suggestion, b: &Suggestion) -> (r: bool)
    ensures
        r == a.same_candidate(*b),
{
    a.range_start == b.range_start && a.range_end == b.range_end && a.text == b.text
}

/// Cycling forward and then immediately backward restores the active index
/// of any non-empty set.
pub proof fn lemma_cycle_round_trip(len: nat, i: nat)
    requires
        len > 0,
        i < len,
    ensures
        spec_cycle_index(len, spec_cycle_index(len, i, Direction::Next), Direction::Prev) == i,
{
}

/// Cycling an empty set, in either direction, leaves the active index alone.
pub proof fn lemma_cycle_empty_is_noop(i: nat, direction: Direction)
    ensures
        spec_cycle_index(0, i, direction) == i,
{
}

/// Deduplication law: appending a candidate twice (or two candidates with
/// identical text and range) adds at most one entry, so the second append
/// leaves the sequence unchanged.
pub proof fn lemma_push_deduplicates(s: Seq<Suggestion>, c1: Suggestion, c2: Suggestion)
    requires
        c1.same_candidate(c2),
    ensures
        spec_push(spec_push(s, c1), c2) == spec_push(s, c1),
{
    let s1 = spec_push(s, c1);
    if contains_candidate(s, c1) {
        let i = choose|i: int| 0 <= i < s.len() && (#[trigger] s[i]).same_candidate(c1);
        assert(s[i].same_candidate(c2));
        assert(contains_candidate(s1, c2));
    } else {
        assert(s1[s.len() as int].same_candidate(c2));
        assert(contains_candidate(s1, c2));
    }
}

} // verus!
