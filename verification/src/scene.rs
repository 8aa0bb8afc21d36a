//! Cubes, the culling threshold, and the per-frame cull / count passes.

use vstd::prelude::*;

verus! {

/// Vertical position, in thousandths of a world unit, below which a cube is
/// removed from the scene (and above which it is counted as visible).
pub const DESPAWN_Y_MILLI: i64 = -20_000;

/// Vertical position, in thousandths of a world unit, at which a new cube is
/// dropped into the scene.
pub const SPAWN_Y_MILLI: i64 = 20_000;

/// One cube of the scene: the host's entity id and the cube's vertical
/// position in thousandths of a world unit.
#[derive(Clone, Copy, PartialEq, Eq, Structural)]
pub struct Cube {
    pub id: u64,
    pub y_milli: i64,
}

/// Whether a cube has fallen below the culling threshold.
pub open spec fn is_fallen(c: Cube) -> bool {
    c.y_milli < DESPAWN_Y_MILLI
}

/// Whether a cube counts as visible (strictly above the culling threshold).
pub open spec fn is_visible(c: Cube) -> bool {
    c.y_milli > DESPAWN_Y_MILLI
}

/// The ids of the fallen cubes of `s`, in scene order.
pub open spec fn fallen_ids(s: Seq<Cube>) -> Seq<u64> {
    s.filter(|c: Cube| is_fallen(c)).map_values(|c: Cube| c.id)
}

/// The number of visible cubes of `s`.
pub open spec fn visible_count_of(s: Seq<Cube>) -> nat {
    s.filter(|c: Cube| is_visible(c)).len()
}

/// The ids of the cubes that have fallen below the threshold and are to be
/// removed this frame, in scene order.
pub fn despawn_targets(cubes: &Vec<Cube>) -> (r: Vec<u64>)
    ensures
        r@ == fallen_ids(cubes@),
{
    let mut out: Vec<u64> = Vec::new();
    let mut i: usize = 0;
    while i < cubes.len()
        invariant
            i <= cubes.len(),
            out@ == fallen_ids(cubes@.take(i as int)),
        decreases cubes.len() - i,
    {
        let c = cubes[i];
        proof {
            reveal(Seq::filter);
            assert(cubes@.take(i + 1).drop_last() =~= cubes@.take(i as int));
            assert(cubes@.take(i + 1).last() == c);
            lemma_map_values_push(cubes@.take(i as int).filter(|c: Cube| is_fallen(c)), c);
        }
        if c.y_milli < DESPAWN_Y_MILLI {
            out.push(c.id);
        }
        i = i + 1;
    }
    proof {
        assert(cubes@.take(cubes@.len() as int) =~= cubes@);
    }
    out
}

/// Mapping a sequence extended by one element is the mapped sequence extended
/// by the image of that element.
proof fn lemma_map_values_push(s: Seq<Cube>, c: Cube)
    ensures
        s.push(c).map_values(|c: Cube| c.id) =~= s.map_values(|c: Cube| c.id).push(c.id),
{
}

/// Each element of a filtered sequence comes from the sequence itself.
proof fn lemma_filter_element_from(s: Seq<Cube>, pred: spec_fn(Cube) -> bool, j: int)
    requires
        0 <= j < s.filter(pred).len(),
    ensures
        exists|i: int| 0 <= i < s.len() && s[i] == s.filter(pred)[j],
    decreases s.len(),
{
    reveal(Seq::filter);
    if s.len() > 0 {
        let f = s.filter(pred);
        let fd = s.drop_last().filter(pred);
        if pred(s.last()) && j == f.len() - 1 {
            assert(s[s.len() - 1] == f[j]);
        } else {
            lemma_filter_element_from(s.drop_last(), pred, j);
            let i = choose|i: int| 0 <= i < s.drop_last().len() && s.drop_last()[i] == fd[j];
            assert(s[i] == f[j]);
        }
    }
}

/// Every cube below the culling threshold has its id among the frame's
/// despawn targets: a fallen cube is always removed.
pub proof fn lemma_fallen_cubes_are_targeted(s: Seq<Cube>, i: int)
    requires
        0 <= i < s.len(),
        is_fallen(s[i]),
    ensures
        fallen_ids(s).contains(s[i].id),
{
    let pred = |c: Cube| is_fallen(c);
    s.lemma_filter_contains(pred, i);
    let f = s.filter(pred);
    let j = choose|j: int| 0 <= j < f.len() && f[j] == s[i];
    assert(fallen_ids(s)[j] == s[i].id);
}

/// Every despawn target is the id of some cube below the culling threshold:
/// nothing above it is ever removed.
pub proof fn lemma_targets_are_fallen_cubes(s: Seq<Cube>, j: int)
    requires
        0 <= j < fallen_ids(s).len(),
    ensures
        exists|i: int| 0 <= i < s.len() && s[i].id == fallen_ids(s)[j] && is_fallen(s[i]),
{
    let pred = |c: Cube| is_fallen(c);
    let f = s.filter(pred);
    s.lemma_filter_pred(pred, j);
    lemma_filter_element_from(s, pred, j);
    let i = choose|i: int| 0 <= i < s.len() && s[i] == f[j];
    assert(fallen_ids(s)[j] == s[i].id);
    assert(0 <= i < s.len() && s[i].id == fallen_ids(s)[j] && is_fallen(s[i]));
}

/// A cube is never both culled and counted: at most one of `is_fallen` and
/// `is_visible` holds of any cube, and of a cube resting exactly at the
/// threshold neither holds.
pub proof fn lemma_cull_count_disjoint(c: Cube)
    ensures
        !(is_fallen(c) && is_visible(c)),
        c.y_milli == DESPAWN_Y_MILLI ==> !is_fallen(c) && !is_visible(c),
{
}

/// In a scene where no cube rests exactly at the threshold, the cull pass and
/// the count pass partition the cubes: every cube is either a despawn target
/// or counted as visible.
pub proof fn lemma_cull_count_partition(s: Seq<Cube>)
    requires
        forall|i: int| 0 <= i < s.len() ==> s[i].y_milli != DESPAWN_Y_MILLI,
    ensures
        fallen_ids(s).len() + visible_count_of(s) == s.len(),
    decreases s.len(),
{
    reveal(Seq::filter);
    if s.len() > 0 {
        assert(forall|i: int|
            0 <= i < s.drop_last().len() ==> s.drop_last()[i].y_milli != DESPAWN_Y_MILLI);
        lemma_cull_count_partition(s.drop_last());
    }
}

/// The number of cubes strictly above the culling threshold.
pub fn visible_count(cubes: &Vec<Cube>) -> (r: usize)
    ensures
        r == visible_count_of(cubes@),
{
    let mut count: usize = 0;
    let mut i: usize = 0;
    while i < cubes.len()
        invariant
            i <= cubes.len(),
            count == visible_count_of(cubes@.take(i as int)),
            count <= i,
        decreases cubes.len() - i,
    {
        let c = cubes[i];
        proof {
            reveal(Seq::filter);
            assert(cubes@.take(i + 1).drop_last() =~= cubes@.take(i as int));
            assert(cubes@.take(i + 1).last() == c);
            cubes@.take(i + 1).drop_last().lemma_filter_len(|c: Cube| is_visible(c));
        }
        if c.y_milli > DESPAWN_Y_MILLI {
            count = count + 1;
        }
        i = i + 1;
    }
    proof {
        assert(cubes@.take(cubes@.len() as int) =~= cubes@);
    }
    count
}

} // verus!
