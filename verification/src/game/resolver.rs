//! The movement resolver: one player step per call, pushing boxes and keys,
//! honouring one-way doors, and detecting the win right after a box lands in
//! a goal.

use vstd::prelude::*;
use crate::game::level::{
    is_box_tile, is_one_way_tile, is_pushable_tile, lemma_double_step_changes_index,
    lemma_grid_index_bound, lemma_step_changes_index, push_target_clear, pushed_result,
    reverted_tile, win_after_push, Level, Tile,
};

verus! {

/// The four unit move directions.
#[derive(Debug, Clone, Copy, PartialEq, Eq, Structural)]
pub enum Direction {
    Left,
    Up,
    Right,
    Down,
}

/// What one resolver call did.
#[derive(Debug, Clone, Copy, PartialEq, Eq, Structural)]
pub enum MoveOutcome {
    /// The move was impossible; the grid is unchanged.
    Blocked,
    /// The player stepped onto a free cell.
    Moved,
    /// The player stepped forward and pushed a box or key one cell.
    MovedPushing,
    /// A push that filled the last goal: the level is complete.
    Won,
}

/// Horizontal part of a unit step in direction `d`.
pub open spec fn dir_dx(d: Direction) -> int {
    match d {
        Direction::Left => -1,
        Direction::Right => 1,
        _ => 0,
    }
}

/// Vertical part of a unit step in direction `d`.
pub open spec fn dir_dy(d: Direction) -> int {
    match d {
        Direction::Up => -1,
        Direction::Down => 1,
        _ => 0,
    }
}

/// The one-way door tile whose open side faces a player moving in `d`.
pub open spec fn one_way_tile(d: Direction) -> Tile {
    match d {
        Direction::Left => Tile::OneWayLeft,
        Direction::Up => Tile::OneWayUp,
        Direction::Right => Tile::OneWayRight,
        Direction::Down => Tile::OneWayDown,
    }
}

/// Whether the player moving in direction `d` may simply step onto tile `t`:
/// empty cells, goals, and the one-way door matching `d`.
pub open spec fn step_tile_allows(t: Tile, d: Direction) -> bool {
    t == Tile::Empty || t == Tile::Goal || t == one_way_tile(d)
}

/// Whether a plain (non-pushing) step in direction `d` is possible.
pub open spec fn can_step(grid: &Level, px: int, py: int, d: Direction) -> bool {
    &&& grid.in_bounds(px + dir_dx(d), py + dir_dy(d))
    &&& step_tile_allows(grid.at(px + dir_dx(d), py + dir_dy(d)), d)
}

/// Whether a pushing step in direction `d` is possible: a box or key sits one
/// cell ahead and the cell beyond it exists and accepts it.
pub open spec fn can_push(grid: &Level, px: int, py: int, d: Direction) -> bool {
    let tx = px + dir_dx(d);
    let ty = py + dir_dy(d);
    &&& grid.in_bounds(tx, ty)
    &&& is_pushable_tile(grid.at(tx, ty))
    &&& grid.in_bounds(tx + dir_dx(d), ty + dir_dy(d))
    &&& push_target_clear(
        is_box_tile(grid.at(tx, ty)),
        grid.at(tx + dir_dx(d), ty + dir_dy(d)),
    )
}

/// The grid after a plain step: the vacated cell reverts according to the
/// as-loaded grid, the destination shows the player.
pub open spec fn after_plain_step(
    grid: &Level,
    original: &Level,
    px: int,
    py: int,
    d: Direction,
) -> Seq<Tile> {
    grid.grid().update(grid.index_of(px, py), reverted_tile(original.at(px, py))).update(
        grid.index_of(px + dir_dx(d), py + dir_dy(d)),
        Tile::Player,
    )
}

/// The grid after a pushing step: the vacated cell reverts, the cell beyond
/// takes the pushed tile, and the pushed-from cell shows the player.
pub open spec fn after_push_step(
    grid: &Level,
    original: &Level,
    px: int,
    py: int,
    d: Direction,
) -> Seq<Tile> {
    let tx = px + dir_dx(d);
    let ty = py + dir_dy(d);
    grid.grid().update(grid.index_of(px, py), reverted_tile(original.at(px, py))).update(
        grid.index_of(tx + dir_dx(d), ty + dir_dy(d)),
        pushed_result(is_box_tile(grid.at(tx, ty)), grid.at(tx + dir_dx(d), ty + dir_dy(d))),
    ).update(grid.index_of(tx, ty), Tile::Player)
}

/// Whether a possible push in direction `d` wins the level: it must push a
/// box onto a goal, and the win test of [`win_after_push`] must pass on the
/// grid with the player's cell already reverted.
pub open spec fn push_wins(grid: &Level, original: &Level, px: int, py: int, d: Direction) -> bool {
    let tx = px + dir_dx(d);
    let ty = py + dir_dy(d);
    let mid = grid.grid().update(grid.index_of(px, py), reverted_tile(original.at(px, py)));
    &&& is_box_tile(grid.at(tx, ty))
    &&& grid.at(tx + dir_dx(d), ty + dir_dy(d)) == Tile::Goal
    &&& win_after_push(
        mid,
        original.grid(),
        grid.index_of(tx, ty),
        grid.index_of(tx + dir_dx(d), ty + dir_dy(d)),
    )
}

impl Direction {
    /// Horizontal part of the unit step.
    pub fn delta_x(&self) -> (r: isize)
        ensures
            r == dir_dx(*self),
    {
        match self {
            Direction::Left => -1,
            Direction::Right => 1,
            _ => 0,
        }
    }

    /// Vertical part of the unit step.
    pub fn delta_y(&self) -> (r: isize)
        ensures
            r == dir_dy(*self),
    {
        match self {
            Direction::Up => -1,
            Direction::Down => 1,
            _ => 0,
        }
    }
}

/// What a cell shows once the player leaves it; executable twin of
/// [`reverted_tile`].
fn revert_cell(original: Tile) -> (r: Tile)
    ensures
        r == reverted_tile(original),
{
    if original == Tile::Player || original == Tile::Box || original == Tile::Key || original
        == Tile::LockedDoor {
        Tile::Empty
    } else if original == Tile::BoxInGoal || original == Tile::KeyInGoal {
        Tile::Goal
    } else {
        original
    }
}

/// Resolves one directional input of the player standing at `player_pos`.
///
/// Exactly one of three things happens: the move is blocked and the grid is
/// untouched; the player steps onto a free cell; or the player pushes the box
/// or key ahead one cell and follows it.  A push that drops a box onto the
/// last open goal — with no unfilled goal hiding under the player — wins the
/// level.  The cell the player leaves reverts to what `original`, the grid as
/// loaded, shows for it.
pub fn attempt_move(
    grid: &mut Level,
    original: &Level,
    player_pos: (usize, usize),
    direction: Direction,
) -> (r: MoveOutcome)
    requires
        old(grid).wf(),
        original.wf(),
        old(grid).same_dims(original),
        old(grid).in_bounds(player_pos.0 as int, player_pos.1 as int),
        old(grid).at(player_pos.0 as int, player_pos.1 as int) == Tile::Player,
    ensures
        final(grid).wf(),
        final(grid).same_dims(old(grid)),
        ({
            let px = player_pos.0 as int;
            let py = player_pos.1 as int;
            &&& (can_step(old(grid), px, py, direction) ==> r == MoveOutcome::Moved
                && final(grid).grid() == after_plain_step(old(grid), original, px, py, direction))
            &&& (can_push(old(grid), px, py, direction) ==> final(grid).grid() == after_push_step(
                old(grid),
                original,
                px,
                py,
                direction,
            ) && r == (if push_wins(old(grid), original, px, py, direction) {
                MoveOutcome::Won
            } else {
                MoveOutcome::MovedPushing
            }))
            &&& (!can_step(old(grid), px, py, direction) && !can_push(old(grid), px, py, direction)
                ==> r == MoveOutcome::Blocked && final(grid).grid() == old(grid).grid())
        }),
{
    let (px, py) = player_pos;
    let move_x = direction.delta_x();
    let move_y = direction.delta_y();

    let target = grid.step_target(px, py, move_x, move_y);
    let Some((to_x, to_y)) = target else { return MoveOutcome::Blocked };

    proof {
        lemma_grid_index_bound(px as int, py as int, grid.spec_width(), grid.spec_height());
        lemma_grid_index_bound(to_x as int, to_y as int, grid.spec_width(), grid.spec_height());
        lemma_step_changes_index(px as int, py as int, move_x as int, move_y as int, grid.spec_width());
    }

    let dest_tile = match grid.get_tile(to_x, to_y) {
        Some(t) => *t,
        None => { return MoveOutcome::Blocked },
    };

    let one_way = match direction {
        Direction::Left => Tile::OneWayLeft,
        Direction::Up => Tile::OneWayUp,
        Direction::Right => Tile::OneWayRight,
        Direction::Down => Tile::OneWayDown,
    };

    let vacated = match original.get_tile(px, py) {
        Some(t) => revert_cell(*t),
        None => { return MoveOutcome::Blocked },
    };

    if dest_tile == Tile::Empty || dest_tile == Tile::Goal || dest_tile == one_way {
        grid.set_tile(px, py, vacated);
        grid.set_tile(to_x, to_y, Tile::Player);
        MoveOutcome::Moved
    } else if dest_tile == Tile::Box || dest_tile == Tile::BoxInGoal || dest_tile == Tile::Key
        || dest_tile == Tile::KeyInGoal {
        grid.set_tile(px, py, vacated);

        proof {
            lemma_double_step_changes_index(
                px as int,
                py as int,
                move_x as int,
                move_y as int,
                grid.spec_width(),
            );
            if old(grid).in_bounds(px + 2 * dir_dx(direction), py + 2 * dir_dy(direction)) {
                lemma_grid_index_bound(
                    px + 2 * dir_dx(direction),
                    py + 2 * dir_dy(direction),
                    old(grid).spec_width(),
                    old(grid).spec_height(),
                );
            }
        }

        let mut has_won = false;
        let moved = grid.move_box_or_key(original, &mut has_won, to_x, to_y, move_x, move_y);

        if moved {
            proof {
                lemma_step_changes_index(
                    to_x as int,
                    to_y as int,
                    move_x as int,
                    move_y as int,
                    grid.spec_width(),
                );
            }
            grid.set_tile(to_x, to_y, Tile::Player);

            proof {
                assert(grid.grid() =~= after_push_step(
                    old(grid),
                    original,
                    px as int,
                    py as int,
                    direction,
                ));
            }

            if has_won {
                MoveOutcome::Won
            } else {
                MoveOutcome::MovedPushing
            }
        } else {
            grid.set_tile(px, py, Tile::Player);

            proof {
                assert(grid.grid() =~= old(grid).grid());
            }

            MoveOutcome::Blocked
        }
    } else {
        MoveOutcome::Blocked
    }
}

/// A one-way door stops every push: whatever the direction and whatever is
/// being pushed, the cell beyond may only be empty, a goal, or (for keys) a
/// locked door — never a one-way tile.  By the contract of [`attempt_move`]
/// any such move therefore comes back `Blocked` with the grid untouched.
pub proof fn lemma_one_way_blocks_push(grid: &Level, px: int, py: int, d: Direction)
    requires
        is_one_way_tile(grid.at(px + 2 * dir_dx(d), py + 2 * dir_dy(d))),
    ensures
        !can_push(grid, px, py, d),
{
}

/// A one-way door admits the player exactly from its open side: a step in
/// direction `d` may enter the one-way tile of `d` and no other one-way tile.
pub proof fn lemma_one_way_open_side(d: Direction, e: Direction)
    ensures
        step_tile_allows(one_way_tile(d), e) <==> d == e,
{
}

} // verus!
