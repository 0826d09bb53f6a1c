//! Distances and movement speed.
use vstd::prelude::*;
use crate::model::{CreepInfo, Part, Position, count_parts, lemma_count_active_bounded};

verus! {

pub open spec fn abs_diff(a: int, b: int) -> int {
    if a >= b { a - b } else { b - a }
}

pub open spec fn max_int(a: int, b: int) -> int {
    if a >= b { a } else { b }
}

/// The Chebyshev distance (l-infinity norm of the difference) of two
/// vectors of the same length: the largest `|x[i] - y[i]|`, or 0 for empty
/// vectors.
pub open spec fn spec_chebyshev(x: Seq<i64>, y: Seq<i64>) -> int
    decreases x.len(),
{
    if x.len() == 0 {
        0
    } else {
        max_int(
            spec_chebyshev(x.drop_last(), y.drop_last()),
            abs_diff(x.last() as int, y.last() as int),
        )
    }
}

/// The Chebyshev distance of two positions, taken in world coordinates:
/// the larger of the horizontal and the vertical distance.
pub open spec fn spec_chebyshev_pos(a: Position, b: Position) -> int {
    max_int(
        abs_diff(a.spec_world_x(), b.spec_world_x()),
        abs_diff(a.spec_world_y(), b.spec_world_y()),
    )
}

/// `|a - b|`, which always fits in a `u64`.
fn abs_diff_i64(a: i64, b: i64) -> (d: u64)
    ensures
        d == abs_diff(a as int, b as int),
{
    if a >= b {
        ((a as i128) - (b as i128)) as u64
    } else {
        ((b as i128) - (a as i128)) as u64
    }
}

/// Computes the Chebyshev distance (l-infinity norm) between two vectors
/// `x` and `y`.
pub fn chebyshev(x: &[i64], y: &[i64]) -> (result: u64)
    requires
        x@.len() == y@.len(),
    ensures
        result == spec_chebyshev(x@, y@),
{
    let mut result: u64 = 0;
    let mut i: usize = 0;
    while i < x.len()
        invariant
            x@.len() == y@.len(),
            i <= x@.len(),
            result == spec_chebyshev(x@.subrange(0, i as int), y@.subrange(0, i as int)),
        decreases x@.len() - i,
    {
        assert(x@.subrange(0, i + 1).drop_last() == x@.subrange(0, i as int));
        assert(y@.subrange(0, i + 1).drop_last() == y@.subrange(0, i as int));
        let diff = abs_diff_i64(x[i], y[i]);
        if diff > result {
            result = diff;
        }
        i = i + 1;
    }
    assert(x@.subrange(0, i as int) == x@);
    assert(y@.subrange(0, i as int) == y@);
    result
}

/// Computes the Chebyshev distance between two positions.
pub fn chebyshev_pos(a: Position, b: Position) -> (d: u64)
    ensures
        d == spec_chebyshev_pos(a, b),
{
    let ax = a.world_x();
    let ay = a.world_y();
    let bx = b.world_x();
    let by = b.world_y();
    let xs: Vec<i64> = vec![ax, ay];
    let ys: Vec<i64> = vec![bx, by];
    let d = chebyshev(xs.as_slice(), ys.as_slice());
    proof {
        assert(xs@.drop_last() =~= seq![ax]);
        assert(ys@.drop_last() =~= seq![bx]);
        assert(xs@.drop_last().drop_last() =~= Seq::<i64>::empty());
        assert(ys@.drop_last().drop_last() =~= Seq::<i64>::empty());
        let sx = seq![ax];
        let sy = seq![bx];
        assert(sx.drop_last() =~= Seq::<i64>::empty());
        assert(sy.drop_last() =~= Seq::<i64>::empty());
        assert(spec_chebyshev(sx.drop_last(), sy.drop_last()) == 0);
        assert(spec_chebyshev(sx, sy) == abs_diff(ax as int, bx as int));
    }
    d
}

/// The Chebyshev distance of positions is a metric on world coordinates:
/// it is symmetric, zero exactly between positions with the same world
/// coordinates, and obeys the triangle inequality.
pub proof fn lemma_chebyshev_pos_metric(a: Position, b: Position, c: Position)
    ensures
        spec_chebyshev_pos(a, b) == spec_chebyshev_pos(b, a),
        spec_chebyshev_pos(a, b) >= 0,
        (spec_chebyshev_pos(a, b) == 0) <==> (a.spec_world_x() == b.spec_world_x() && a.spec_world_y() == b.spec_world_y()),
        spec_chebyshev_pos(a, c) <= spec_chebyshev_pos(a, b) + spec_chebyshev_pos(b, c),
{
}

/// The Chebyshev distance of two vectors is the largest coordinate
/// difference: no difference exceeds it, and some difference attains it
/// (for non-empty vectors).
pub proof fn lemma_chebyshev_is_max(x: Seq<i64>, y: Seq<i64>)
    requires
        x.len() == y.len(),
    ensures
        forall|i: int| 0 <= i < x.len() ==> abs_diff(#[trigger] x[i] as int, y[i] as int) <= spec_chebyshev(x, y),
        x.len() > 0 ==> exists|i: int| 0 <= i < x.len() && abs_diff(#[trigger] x[i] as int, y[i] as int) == spec_chebyshev(x, y),
        x.len() == 0 ==> spec_chebyshev(x, y) == 0,
    decreases x.len(),
{
    if x.len() > 0 {
        let xs = x.drop_last();
        let ys = y.drop_last();
        lemma_chebyshev_is_max(xs, ys);
        assert forall|i: int| 0 <= i < x.len() implies abs_diff(#[trigger] x[i] as int, y[i] as int) <= spec_chebyshev(x, y) by {
            if i < x.len() - 1 {
                assert(x[i] == xs[i] && y[i] == ys[i]);
            }
        }
        if xs.len() > 0 && spec_chebyshev(xs, ys) >= abs_diff(x.last() as int, y.last() as int) {
            let j = choose|j: int| 0 <= j < xs.len() && abs_diff(#[trigger] xs[j] as int, ys[j] as int) == spec_chebyshev(xs, ys);
            assert(x[j] == xs[j] && y[j] == ys[j]);
        } else {
            assert(abs_diff(x[x.len() - 1] as int, y[x.len() - 1] as int) == spec_chebyshev(x, y));
        }
    }
}

/// A distance as a `usize`, saturating at `usize::MAX`.
pub open spec fn spec_saturate(d: int) -> int {
    if d > usize::MAX { usize::MAX as int } else { d }
}

pub fn saturate_usize(d: u64) -> (r: usize)
    ensures
        r == spec_saturate(d as int),
{
    if d > usize::MAX as u64 {
        usize::MAX
    } else {
        d as usize
    }
}

/// The creep's parts that generate fatigue when it moves: every part but
/// `Move`.
pub open spec fn fatigue_parts(c: CreepInfo) -> int {
    c.body@.len() - count_parts(c.body@, Part::Move)
}

/// The move speed of a creep on plain land: each part but `Move`
/// generates 2 fatigue points per move and each `Move` part removes 2 per
/// tick. A creep whose `Move` parts remove at least the fatigue the rest
/// generate moves at the maximum speed, 1; otherwise the speed is the
/// excess fatigue, capped at that maximum.
pub open spec fn spec_move_speed(c: CreepInfo) -> int {
    let generated = 2 * fatigue_parts(c);
    let removed = 2 * count_parts(c.body@, Part::Move);
    if removed >= generated {
        1
    } else if generated - removed < 1 {
        generated - removed
    } else {
        1
    }
}

/// Computes the move speed of a creep. Currently, always assumes a ground
/// of type plain land: each part but `Move` generates 2 fatigue points per
/// move, each `Move` part removes 2 per tick, and the speed is at most 1.
pub fn get_creep_move_speed(creep: &CreepInfo) -> (speed: usize)
    requires
        creep.wf(),
    ensures
        speed == spec_move_speed(*creep),
{
    let mut move_parts: usize = 0;
    let mut fatigue: usize = 0;
    let mut i: usize = 0;
    while i < creep.body.len()
        invariant
            creep.wf(),
            i <= creep.body@.len(),
            move_parts == count_parts(creep.body@.subrange(0, i as int), Part::Move),
            move_parts + fatigue == i,
        decreases creep.body@.len() - i,
    {
        assert(creep.body@.subrange(0, i + 1).drop_last() == creep.body@.subrange(0, i as int));
        if creep.body[i].part == Part::Move {
            move_parts = move_parts + 1;
        } else {
            fatigue = fatigue + 1;
        }
        i = i + 1;
    }
    assert(creep.body@.subrange(0, i as int) == creep.body@);
    let generated: usize = fatigue * 2;
    let removed: usize = move_parts * 2;
    if removed >= generated {
        return 1;
    }
    let d = generated - removed;
    if d < 1 { d } else { 1 }
}

/// On plain land every creep moves at the maximum speed, 1: `Move` parts
/// that remove at least the fatigue of the other parts keep it there, and
/// a creep with fewer `Move` parts has an excess of at least 2 fatigue,
/// which the cap brings down to 1.
pub proof fn lemma_move_speed_is_one(c: CreepInfo)
    ensures
        count_parts(c.body@, Part::Move) >= fatigue_parts(c) ==> spec_move_speed(c) == 1,
        spec_move_speed(c) == 1,
{
}

} // verus!
