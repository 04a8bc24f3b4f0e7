//! The scene: an insertion-ordered collection of surfaces, and the choice of
//! the closest hit among the candidates those surfaces report.
//!
//! A candidate is the ray parameter of one surface's hit, carried as an
//! unsigned key that orders as the parameter does; the bounds of the scan are
//! carried the same way. The lower bound of a scan is positive, and for
//! non-negative doubles the IEEE-754 bit pattern is such a key. A surface
//! that the ray misses reports `None`.

use vstd::prelude::*;

verus! {

/// The surfaces of a scene, in the order they were added.
pub struct HittableList<T> {
    list: Vec<T>,
}

impl<T> View for HittableList<T> {
    type V = Seq<T>;

    closed spec fn view(&self) -> Seq<T> {
        self.list@
    }
}

impl<T> HittableList<T> {
    /// A scene with no surface in it.
    pub fn new() -> (scene: HittableList<T>)
        ensures
            scene@ == Seq::<T>::empty(),
    {
        HittableList { list: Vec::new() }
    }

    /// Adds a surface behind those already there.
    pub fn add(&mut self, hittable: T)
        ensures
            final(self)@ == old(self)@.push(hittable),
    {
        self.list.push(hittable);
    }

    /// The number of surfaces.
    pub fn len(&self) -> (n: usize)
        ensures
            n == self@.len(),
    {
        self.list.len()
    }

    /// The surface added as the `index`-th, counting from zero.
    pub fn get(&self, index: usize) -> (surface: Option<&T>)
        ensures
            index < self@.len() ==> surface == Some(&self@[index as int]),
            index >= self@.len() ==> surface is None,
    {
        if index < self.list.len() {
            Some(&self.list[index])
        } else {
            None
        }
    }
}

/// The nearer of two candidates; the first one where they tie.
pub open spec fn nearer(a: Option<u64>, b: Option<u64>) -> Option<u64> {
    match (a, b) {
        (None, _) => b,
        (Some(_), None) => a,
        (Some(x), Some(y)) => if y < x {
            b
        } else {
            a
        },
    }
}

/// The smallest candidate of the scene, `None` where no surface is hit.
pub open spec fn closest_distance(candidates: Seq<Option<u64>>) -> Option<u64>
    decreases candidates.len(),
{
    if candidates.len() == 0 {
        None
    } else {
        nearer(closest_distance(candidates.drop_last()), candidates.last())
    }
}

/// Among the first `n` surfaces, surface `i` is hit, no surface is hit
/// closer, and no earlier surface is hit as close.
pub open spec fn is_closest_of_first(candidates: Seq<Option<u64>>, n: int, i: int) -> bool {
    &&& 0 <= i < n <= candidates.len()
    &&& candidates[i] is Some
    &&& forall|j: int|
        0 <= j < n && candidates[j] is Some ==> candidates[i]->0 <= (#[trigger] candidates[j])->0
    &&& forall|j: int|
        0 <= j < i && candidates[j] is Some ==> candidates[i]->0 < (#[trigger] candidates[j])->0
}

/// Surface `i` is the closest hit of the whole scene, and the first such.
pub open spec fn is_closest(candidates: Seq<Option<u64>>, i: int) -> bool {
    is_closest_of_first(candidates, candidates.len() as int, i)
}

/// No surface of the scene is hit.
pub open spec fn all_missed(candidates: Seq<Option<u64>>) -> bool {
    forall|j: int| 0 <= j < candidates.len() ==> (#[trigger] candidates[j]) is None
}

/// `closest_distance` is `None` exactly where every surface is missed, and is
/// otherwise a candidate that no other candidate undercuts.
pub proof fn lemma_closest_distance_is_minimum(candidates: Seq<Option<u64>>)
    ensures
        closest_distance(candidates) is None <==> all_missed(candidates),
        closest_distance(candidates) is Some ==> candidates.contains(closest_distance(candidates)),
        forall|j: int|
            0 <= j < candidates.len() && (#[trigger] candidates[j]) is Some ==> {
                &&& closest_distance(candidates) is Some
                &&& closest_distance(candidates)->0 <= candidates[j]->0
            },
    decreases candidates.len(),
{
    if candidates.len() > 0 {
        let front = candidates.drop_last();
        lemma_closest_distance_is_minimum(front);
        assert(forall|j: int| 0 <= j < front.len() ==> front[j] == candidates[j]);
        let best = closest_distance(candidates);
        if best is Some && best != candidates.last() {
            let k = choose|k: int| 0 <= k < front.len() && front[k] == best;
            assert(candidates[k] == best);
        }
    }
}

/// Whether a surface reports a hit between the two bounds, both included.
pub open spec fn in_bounds(candidate: Option<u64>, t_min: u64, t_max: u64) -> bool {
    candidate matches Some(t) && t_min <= t <= t_max
}

/// The candidates as a scan with these bounds sees them: a hit out of bounds
/// counts as a miss.
pub open spec fn within(candidates: Seq<Option<u64>>, t_min: u64, t_max: u64) -> Seq<Option<u64>> {
    Seq::new(
        candidates.len(),
        |i: int|
            if in_bounds(candidates[i], t_min, t_max) {
                candidates[i]
            } else {
                None
            },
    )
}

/// The index of the closest hit between the bounds: of the surfaces that are
/// hit there, the one with the smallest candidate, and of several with that
/// candidate the one added first. `None` if and only if no surface is hit
/// between the bounds.
///
/// The scan goes through the surfaces once, and the upper bound comes down
/// to each closer hit as it is found.
pub fn closest_hit(candidates: &Vec<Option<u64>>, t_min: u64, t_max: u64) -> (winner: Option<usize>)
    ensures
        winner is None <==> all_missed(within(candidates@, t_min, t_max)),
        winner matches Some(i) ==> is_closest(within(candidates@, t_min, t_max), i as int),
        closest_distance(within(candidates@, t_min, t_max)) == match winner {
            Some(i) => candidates@[i as int],
            None => None,
        },
{
    let ghost seen = within(candidates@, t_min, t_max);
    let mut winner: Option<usize> = None;
    let mut closest: u64 = t_max;
    let mut i: usize = 0;
    while i < candidates.len()
        invariant
            i <= candidates.len(),
            seen == within(candidates@, t_min, t_max),
            closest <= t_max,
            winner is None <==> forall|j: int| 0 <= j < i ==> (#[trigger] seen[j]) is None,
            winner is None ==> closest == t_max,
            winner matches Some(w) ==> {
                &&& is_closest_of_first(seen, i as int, w as int)
                &&& seen[w as int] == Some(closest)
            },
        decreases candidates.len() - i,
    {
        match candidates[i] {
            Some(t) => {
                if t_min <= t && (t < closest || (winner.is_none() && t == closest)) {
                    winner = Some(i);
                    closest = t;
                }
            },
            None => {},
        }
        i += 1;
    }
    proof {
        lemma_closest_distance_is_minimum(seen);
        if winner is Some {
            // The closest distance is one of the candidates, so the winner
            // is at least as close; and no candidate undercuts it.
            let best = closest_distance(seen);
            let k = choose|k: int| 0 <= k < seen.len() && seen[k] == best;
            assert(seen[k] is Some);
        }
    }
    winner
}

/// Narrowing the upper bound of a scan to a hit already found loses nothing:
/// where some surface is hit between the bounds at `found`, the closest
/// distance between `t_min` and `found` is the closest between `t_min` and
/// `t_max`.
pub proof fn lemma_narrowing_keeps_closest(
    candidates: Seq<Option<u64>>,
    t_min: u64,
    t_max: u64,
    found: u64,
)
    requires
        t_min <= found <= t_max,
        candidates.contains(Some(found)),
    ensures
        closest_distance(within(candidates, t_min, found)) == closest_distance(
            within(candidates, t_min, t_max),
        ),
{
    let wide = within(candidates, t_min, t_max);
    let narrow = within(candidates, t_min, found);
    lemma_closest_distance_is_minimum(wide);
    lemma_closest_distance_is_minimum(narrow);
    let at = choose|k: int| 0 <= k < candidates.len() && candidates[k] == Some(found);
    assert(wide[at] == Some(found));
    assert(narrow[at] == Some(found));
    let a = closest_distance(wide);
    let b = closest_distance(narrow);
    let ka = choose|k: int| 0 <= k < wide.len() && wide[k] == a;
    let kb = choose|k: int| 0 <= k < narrow.len() && narrow[k] == b;
    assert(narrow[ka] == a);
    assert(wide[kb] == b);
}

/// The distance of the closest hit does not depend on the order in which the
/// surfaces were added: two scenes that report the same candidates, each as
/// often as the other, have the same closest distance.
pub proof fn lemma_closest_distance_ignores_order(
    first: Seq<Option<u64>>,
    second: Seq<Option<u64>>,
)
    requires
        first.to_multiset() == second.to_multiset(),
    ensures
        closest_distance(first) == closest_distance(second),
{
    lemma_closest_distance_is_minimum(first);
    lemma_closest_distance_is_minimum(second);
    first.to_multiset_ensures();
    second.to_multiset_ensures();
    let a = closest_distance(first);
    let b = closest_distance(second);
    if a is Some {
        // The closest of the first scene is a candidate of the second.
        assert(first.to_multiset().count(a) > 0);
        let k = choose|k: int| 0 <= k < second.len() && second[k] == a;
        assert(second[k] is Some);
    }
    if b is Some {
        // And the other way round.
        assert(second.to_multiset().count(b) > 0);
        let k = choose|k: int| 0 <= k < first.len() && first[k] == b;
        assert(first[k] is Some);
    }
}

} // verus!
