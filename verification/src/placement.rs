//! Placing someone on a random free tile, by rejection sampling.
//!
//! A search rolls coordinates until a tile is acceptable, and gives up after a
//! fixed number of attempts. Which tile it finds is a function of the
//! candidates rolled: the first acceptable one.

use crate::dice::roll;
use crate::scan::{
    first_where, is_first_where, lemma_first_where_found, lemma_first_where_is_first,
    lemma_first_where_none,
};
use crate::world::{GameWorld, WorldView};
use vstd::prelude::*;

verus! {

/// The number of attempts after which a search gives up.
pub const PLACEMENT_ATTEMPTS: u32 = 100;

/// Whether `p` lies inside the border of the grid.
pub open spec fn is_inner(world: WorldView, p: (i32, i32)) -> bool {
    1 <= p.0 <= world.size.0 - 2 && 1 <= p.1 <= world.size.1 - 2
}

/// Whether someone may be placed at `p`: an inner tile of the grid that can
/// be walked on.
pub open spec fn is_spawn_tile(world: WorldView, p: (i32, i32)) -> bool {
    is_inner(world, p) && world.walkable(p.0 as int, p.1 as int)
}

/// The condition "is a spawn tile that is not taken" on candidates.
pub open spec fn acceptable(world: WorldView, taken: Seq<(i32, i32)>) -> spec_fn((i32, i32)) -> bool {
    |p: (i32, i32)| is_spawn_tile(world, p) && !taken.contains(p)
}

/// The number of candidates that a search rolls at most: a hundred, or none
/// where the grid has no inner tile to roll.
pub open spec fn attempts_in(world: WorldView) -> nat {
    if world.size.0 >= 3 && world.size.1 >= 3 {
        PLACEMENT_ATTEMPTS as nat
    } else {
        0
    }
}

/// Whether `candidates` can be what one search rolls in `world`: as many as
/// it has attempts, each an inner tile.
pub open spec fn fair_candidates(world: WorldView, candidates: Seq<(i32, i32)>) -> bool {
    &&& candidates.len() == attempts_in(world)
    &&& forall|i: int| 0 <= i < candidates.len() ==> is_inner(world, #[trigger] candidates[i])
}

/// What a search finds when it rolls `candidates`: the first that is
/// acceptable, and nothing if none is.
pub open spec fn search_outcome(
    world: WorldView,
    taken: Seq<(i32, i32)>,
    candidates: Seq<(i32, i32)>,
) -> Option<(i32, i32)> {
    match first_where(candidates, acceptable(world, taken)) {
        Some(i) => Some(candidates[i]),
        None => None,
    }
}

/// The tiles that the searches with the outcomes `spots` have taken, in order.
pub open spec fn taken_by(spots: Seq<Option<(i32, i32)>>) -> Seq<(i32, i32)>
    decreases spots.len(),
{
    if spots.len() == 0 {
        Seq::empty()
    } else {
        match spots.last() {
            Some(p) => taken_by(spots.drop_last()).push(p),
            None => taken_by(spots.drop_last()),
        }
    }
}

/// The outcomes of a row of searches, one after the other, search `k`
/// rolling `rounds[k]`: a tile that one search finds is taken for those that
/// follow.
pub open spec fn spots_found(world: WorldView, rounds: Seq<Seq<(i32, i32)>>) -> Seq<
    Option<(i32, i32)>,
>
    decreases rounds.len(),
{
    if rounds.len() == 0 {
        Seq::empty()
    } else {
        let before = spots_found(world, rounds.drop_last());
        before.push(search_outcome(world, taken_by(before), rounds.last()))
    }
}

/// Whether `rounds` can be what a row of searches rolls in `world`.
pub open spec fn fair_rounds(world: WorldView, rounds: Seq<Seq<(i32, i32)>>) -> bool {
    forall|k: int| 0 <= k < rounds.len() ==> fair_candidates(world, #[trigger] rounds[k])
}

/// Whether every tile among `spots` is a spawn tile of `world` and none
/// occurs twice.
pub open spec fn valid_spots(world: WorldView, spots: Seq<Option<(i32, i32)>>) -> bool {
    forall|k: int|
        0 <= k < spots.len() ==> ((#[trigger] spots[k]) matches Some(p) ==> {
            &&& is_spawn_tile(world, p)
            &&& forall|j: int| 0 <= j < k ==> spots[j] != Some(p)
        })
}

/// A tile is taken exactly when a search found it.
pub proof fn lemma_taken_are_the_found(spots: Seq<Option<(i32, i32)>>, p: (i32, i32))
    ensures
        taken_by(spots).contains(p) <==> spots.contains(Some(p)),
    decreases spots.len(),
{
    if spots.len() > 0 {
        let before = spots.drop_last();
        lemma_taken_are_the_found(before, p);
        if taken_by(spots).contains(p) {
            let at = choose|at: int| 0 <= at < taken_by(spots).len() && taken_by(spots)[at] == p;
            if at < taken_by(before).len() {
                assert(taken_by(before)[at] == p);
                let j = choose|j: int| 0 <= j < before.len() && before[j] == Some(p);
                assert(spots[j] == Some(p));
            } else {
                assert(spots[spots.len() - 1] == Some(p));
            }
        }
        if spots.contains(Some(p)) {
            let j = choose|j: int| 0 <= j < spots.len() && spots[j] == Some(p);
            if j < before.len() {
                assert(before[j] == Some(p));
                let at = choose|at: int|
                    0 <= at < taken_by(before).len() && taken_by(before)[at] == p;
                assert(taken_by(spots)[at] == p);
            } else {
                assert(taken_by(spots).last() == p);
            }
        }
    }
}

/// There is one outcome for each search.
pub proof fn lemma_one_spot_per_round(world: WorldView, rounds: Seq<Seq<(i32, i32)>>)
    ensures
        spots_found(world, rounds).len() == rounds.len(),
    decreases rounds.len(),
{
    if rounds.len() > 0 {
        lemma_one_spot_per_round(world, rounds.drop_last());
    }
}

/// Whatever the searches roll, the tiles they find are spawn tiles, and no
/// two searches find the same tile.
pub proof fn lemma_spots_found_are_valid(world: WorldView, rounds: Seq<Seq<(i32, i32)>>)
    ensures
        valid_spots(world, spots_found(world, rounds)),
    decreases rounds.len(),
{
    if rounds.len() > 0 {
        let earlier = rounds.drop_last();
        let before = spots_found(world, earlier);
        let spots = spots_found(world, rounds);
        lemma_spots_found_are_valid(world, earlier);
        lemma_one_spot_per_round(world, earlier);
        lemma_first_where_is_first(rounds.last(), acceptable(world, taken_by(before)));
        assert forall|k: int| 0 <= k < spots.len() implies ((#[trigger] spots[k]) matches Some(
            p,
        ) ==> {
            &&& is_spawn_tile(world, p)
            &&& forall|j: int| 0 <= j < k ==> spots[j] != Some(p)
        }) by {
            if k < before.len() {
                assert(spots[k] == before[k]);
                assert(forall|j: int| 0 <= j < k ==> spots[j] == before[j]);
            } else if let Some(p) = spots[k] {
                lemma_taken_are_the_found(before, p);
                assert forall|j: int| 0 <= j < k implies spots[j] != Some(p) by {
                    assert(spots[j] == before[j]);
                }
            }
        }
    }
}

/// A search that rolls an acceptable candidate finds a tile: it fails only
/// when every candidate rolled is unfit or taken.
pub proof fn lemma_search_fails_only_without_acceptable_candidate(
    world: WorldView,
    taken: Seq<(i32, i32)>,
    candidates: Seq<(i32, i32)>,
)
    ensures
        search_outcome(world, taken, candidates) is None <==> forall|i: int|
            0 <= i < candidates.len() ==> !acceptable(world, taken)(#[trigger] candidates[i]),
        search_outcome(world, taken, candidates) matches Some(p) ==> is_spawn_tile(world, p)
            && !taken.contains(p) && candidates.contains(p),
{
    lemma_first_where_is_first(candidates, acceptable(world, taken));
}

/// Whether `p` is among `taken`.
fn is_taken(taken: &Vec<(i32, i32)>, p: (i32, i32)) -> (found: bool)
    ensures
        found == taken@.contains(p),
{
    let mut i: usize = 0;
    while i < taken.len()
        invariant
            i <= taken@.len(),
            forall|j: int| 0 <= j < i ==> taken@[j] != p,
        decreases taken@.len() - i,
    {
        if taken[i].0 == p.0 && taken[i].1 == p.1 {
            return true;
        }
        i += 1;
    }
    false
}

/// The greatest coordinate that a search rolls along an axis of `length`
/// tiles: the last one inside the border, or the greatest that a position can
/// hold where the axis is longer than that.
pub open spec fn last_inner_of(length: int) -> int {
    if length - 2 > i32::MAX {
        i32::MAX as int
    } else {
        length - 2
    }
}

/// The greatest inner coordinate along an axis of `length` tiles, which must
/// be at least three.
fn last_inner(length: usize) -> (last: i32)
    requires
        length >= 3,
    ensures
        last == last_inner_of(length as int),
        1 <= last <= length - 2,
{
    if length - 2 > i32::MAX as usize {
        i32::MAX
    } else {
        (length - 2) as i32
    }
}

/// Whether a search may settle on `p`: a spawn tile that is not taken yet.
pub fn accepts_spot(world: &GameWorld, taken: &Vec<(i32, i32)>, p: (i32, i32)) -> (accepted: bool)
    requires
        world.wf(),
    ensures
        accepted == acceptable(world@, taken@)(p),
        accepted == (is_spawn_tile(world@, p) && !taken@.contains(p)),
{
    if p.0 < 1 || p.1 < 1 || world.size.0 < 3 || world.size.1 < 3 {
        return false;
    }
    if p.0 as usize > world.size.0 - 2 || p.1 as usize > world.size.1 - 2 {
        return false;
    }
    world.is_walkable(p.0, p.1) && !is_taken(taken, p)
}

/// Searches for a free spawn tile by rolling inner coordinates, up to a
/// hundred times, and marks the tile found as taken. A grid without inner
/// tiles has none to roll.
///
/// Whatever the dice show, the tile found is the first acceptable one among
/// the candidates rolled, and the search fails only if none of a hundred was.
pub fn find_random_position(world: &GameWorld, taken: &mut Vec<(i32, i32)>) -> (found: Option<
    (i32, i32),
>)
    requires
        world.wf(),
    ensures
        exists|candidates: Seq<(i32, i32)>|
            {
                &&& #[trigger] fair_candidates(world@, candidates)
                &&& found == search_outcome(world@, old(taken)@, candidates)
            },
        final(taken)@ == (match found {
            Some(p) => old(taken)@.push(p),
            None => old(taken)@,
        }),
{
    let ghost fits = acceptable(world@, taken@);
    if world.size.0 < 3 || world.size.1 < 3 {
        proof {
            let none = Seq::<(i32, i32)>::empty();
            lemma_first_where_none(none, fits);
            assert(fair_candidates(world@, none));
        }
        return None;
    }
    let last_x = last_inner(world.size.0);
    let last_y = last_inner(world.size.1);
    let ghost mut rolled: Seq<(i32, i32)> = Seq::empty();
    let mut attempt: u32 = 0;
    while attempt < PLACEMENT_ATTEMPTS
        invariant
            world.wf(),
            world.size.0 >= 3 && world.size.1 >= 3,
            1 <= last_x <= world.size.0 - 2,
            1 <= last_y <= world.size.1 - 2,
            attempt <= PLACEMENT_ATTEMPTS,
            taken@ == old(taken)@,
            fits == acceptable(world@, old(taken)@),
            rolled.len() == attempt,
            forall|i: int| 0 <= i < rolled.len() ==> is_inner(world@, #[trigger] rolled[i]),
            forall|i: int| 0 <= i < rolled.len() ==> !fits(#[trigger] rolled[i]),
        decreases PLACEMENT_ATTEMPTS - attempt,
    {
        let x = roll(1, last_x);
        let y = roll(1, last_y);
        if accepts_spot(world, taken, (x, y)) {
            taken.push((x, y));
            proof {
                let rest = (PLACEMENT_ATTEMPTS - attempt - 1) as nat;
                let candidates = rolled.push((x, y)) + Seq::new(rest, |i: int| (x, y));
                assert(candidates[attempt as int] == (x, y));
                assert forall|i: int| 0 <= i < candidates.len() implies is_inner(
                    world@,
                    #[trigger] candidates[i],
                ) by {
                    if i < attempt {
                        assert(candidates[i] == rolled[i]);
                    }
                }
                assert forall|j: int| 0 <= j < attempt implies !fits(
                    #[trigger] candidates[j],
                ) by {
                    assert(candidates[j] == rolled[j]);
                }
                assert(is_first_where(candidates, fits, attempt as int));
                lemma_first_where_found(candidates, fits, attempt as int);
                assert(fair_candidates(world@, candidates));
                assert(search_outcome(world@, old(taken)@, candidates) == Some((x, y)));
            }
            return Some((x, y));
        }
        proof {
            rolled = rolled.push((x, y));
        }
        attempt += 1;
    }
    proof {
        lemma_first_where_none(rolled, fits);
        assert(fair_candidates(world@, rolled));
        assert(search_outcome(world@, old(taken)@, rolled) is None);
    }
    None
}

} // verus!
