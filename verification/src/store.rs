//! The challenge store: a mapping from challenge identifier to the
//! accepted-answer interval, the sole arbiter of verification.

use vstd::prelude::*;

verus! {

/// Whether the store contents `m` accept the claimed angle `a`
/// (millidegrees) for identifier `id`: the identifier must be known and
/// `a` must lie inside its closed interval. An unknown identifier is
/// indistinguishable from a wrong answer, by design.
pub open spec fn accepts(m: Map<Seq<char>, (i64, i64)>, id: Seq<char>, a: int) -> bool {
    m.contains_key(id) && m[id].0 <= a <= m[id].1
}

/// The mapping denoted by a sequence of (identifier, interval) entries;
/// a later entry for the same identifier wins.
pub open spec fn entries_map(s: Seq<(String, (i64, i64))>) -> Map<Seq<char>, (i64, i64)>
    decreases s.len(),
{
    if s.len() == 0 {
        Map::empty()
    } else {
        entries_map(s.drop_last()).insert(s.last().0@, s.last().1)
    }
}

/// Holder of all outstanding challenge answers. Entries are kept for the
/// life of the store; verification does not consume them.
pub struct ChallengeStore {
    pub entries: Vec<(String, (i64, i64))>,
}

impl View for ChallengeStore {
    type V = Map<Seq<char>, (i64, i64)>;

    open spec fn view(&self) -> Map<Seq<char>, (i64, i64)> {
        entries_map(self.entries@)
    }
}

impl ChallengeStore {
    /// A store with no outstanding challenges.
    pub fn new() -> (r: Self)
        ensures
            r@ == Map::<Seq<char>, (i64, i64)>::empty(),
    {
        ChallengeStore { entries: Vec::new() }
    }

    /// Record that identifier `id` accepts exactly the closed interval
    /// `[min_millideg, max_millideg]`. Re-inserting an existing
    /// identifier overwrites its interval (last write wins).
    pub fn insert(&mut self, id: String, min_millideg: i64, max_millideg: i64)
        ensures
            final(self)@ == old(self)@.insert(id@, (min_millideg, max_millideg)),
    {
        self.entries.push((id, (min_millideg, max_millideg)));
        proof {
            assert(self.entries@.drop_last() =~= old(self).entries@);
        }
    }

    /// The interval recorded for `id`, if any; the most recent insert for
    /// `id` is the one reported.
    pub fn lookup(&self, id: &String) -> (r: Option<(i64, i64)>)
        ensures
            r == if self@.contains_key(id@) {
                Some(self@[id@])
            } else {
                None::<(i64, i64)>
            },
    {
        let mut found: Option<(i64, i64)> = None;
        let n = self.entries.len();
        let mut i: usize = 0;
        while i < n
            invariant
                i <= n,
                n == self.entries@.len(),
                found == if entries_map(self.entries@.take(i as int)).contains_key(id@) {
                    Some(entries_map(self.entries@.take(i as int))[id@])
                } else {
                    None::<(i64, i64)>
                },
            decreases n - i,
        {
            let ghost pre = self.entries@.take(i as int);
            if self.entries[i].0 == *id {
                found = Some(self.entries[i].1);
            }
            proof {
                assert(self.entries@.take(i + 1).drop_last() =~= pre);
                assert(self.entries@.take(i + 1).last() == self.entries@[i as int]);
            }
            i = i + 1;
        }
        proof {
            assert(self.entries@.take(n as int) =~= self.entries@);
        }
        found
    }

    /// The verification decision for one claimed answer: true iff `id` is
    /// known and `angle_millideg` lies inside its interval, both
    /// boundaries included.
    pub fn check(&self, id: &String, angle_millideg: i64) -> (r: bool)
        ensures
            r == accepts(self@, id@, angle_millideg as int),
    {
        match self.lookup(id) {
            Some((min_millideg, max_millideg)) => {
                min_millideg <= angle_millideg && angle_millideg <= max_millideg
            },
            None => false,
        }
    }

    /// A point-in-time copy of the full store contents. The copy shares
    /// no structure with the store, so callers cannot mutate store state
    /// through it.
    pub fn inspect(&self) -> (r: Vec<(String, (i64, i64))>)
        ensures
            r@ == self.entries@,
            entries_map(r@) == self@,
    {
        let mut r: Vec<(String, (i64, i64))> = Vec::new();
        let n = self.entries.len();
        let mut i: usize = 0;
        while i < n
            invariant
                i <= n,
                n == self.entries@.len(),
                r@ =~= self.entries@.take(i as int),
            decreases n - i,
        {
            let id_copy = self.entries[i].0.clone();
            let interval = self.entries[i].1;
            r.push((id_copy, interval));
            i = i + 1;
        }
        proof {
            assert(self.entries@.take(n as int) =~= self.entries@);
            assert(r@ =~= self.entries@);
        }
        r
    }
}

/// Interval correctness: a stored interval `[target - leeway, target + leeway]`
/// accepts the exact target angle and both boundary values inclusive, and
/// rejects any angle farther than the leeway from the target, on either side,
/// by any positive margin.
pub proof fn lemma_interval_correctness(
    m: Map<Seq<char>, (i64, i64)>,
    id: Seq<char>,
    target: int,
    leeway: int,
    eps: int,
)
    requires
        m.contains_key(id),
        m[id].0 == target - leeway,
        m[id].1 == target + leeway,
        0 <= leeway,
        0 < eps,
    ensures
        accepts(m, id, target),
        accepts(m, id, target - leeway),
        accepts(m, id, target + leeway),
        !accepts(m, id, target + leeway + eps),
        !accepts(m, id, target - leeway - eps),
{
}

/// Unknown identifier: an identifier the store has never seen is accepted
/// for no claimed angle at all.
pub proof fn lemma_unknown_identifier(m: Map<Seq<char>, (i64, i64)>, id: Seq<char>, a: int)
    requires
        !m.contains_key(id),
    ensures
        !accepts(m, id, a),
{
}

} // verus!
