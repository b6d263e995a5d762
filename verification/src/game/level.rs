//! Tiles, the level grid, and the push rules that move boxes and keys.

use vstd::prelude::*;
use crate::console::{Color, Console, DrawStep};

verus! {

/// A single cell of a level.
#[derive(Debug, Clone, Copy, PartialEq, Eq, Structural)]
pub enum Tile {
    Empty,

    OneWayLeft,
    OneWayUp,
    OneWayRight,
    OneWayDown,

    Wall,

    Player,

    Key,
    KeyInGoal,
    LockedDoor,

    Box,
    BoxInGoal,
    Goal,

    Secret,
}

/// True of the two box tiles; a pushed box can never open a locked door.
pub open spec fn is_box_tile(t: Tile) -> bool {
    t == Tile::Box || t == Tile::BoxInGoal
}

/// True of the two key tiles.
pub open spec fn is_key_tile(t: Tile) -> bool {
    t == Tile::Key || t == Tile::KeyInGoal
}

/// Tiles the player pushes ahead when stepping onto them.
pub open spec fn is_pushable_tile(t: Tile) -> bool {
    is_box_tile(t) || is_key_tile(t)
}

/// The four directional one-way door tiles.
pub open spec fn is_one_way_tile(t: Tile) -> bool {
    t == Tile::OneWayLeft || t == Tile::OneWayUp || t == Tile::OneWayRight || t == Tile::OneWayDown
}

/// A goal that still waits for a box: either visibly empty or filled by a key.
pub open spec fn is_open_goal(t: Tile) -> bool {
    t == Tile::Goal || t == Tile::KeyInGoal
}

/// Tiles that mark a goal cell in the as-loaded grid.
pub open spec fn is_goal_derived(t: Tile) -> bool {
    t == Tile::Goal || t == Tile::BoxInGoal || t == Tile::KeyInGoal
}

/// Whether a push may land on `to`: empty and goal cells always accept,
/// locked doors only accept keys.
pub open spec fn push_target_clear(pushing_box: bool, to: Tile) -> bool {
    to == Tile::Empty || to == Tile::Goal || (!pushing_box && to == Tile::LockedDoor)
}

/// The tile left at the far cell after a successful push onto `to`.
pub open spec fn pushed_result(pushing_box: bool, to: Tile) -> Tile {
    if to == Tile::Goal {
        if pushing_box {
            Tile::BoxInGoal
        } else {
            Tile::KeyInGoal
        }
    } else if to == Tile::LockedDoor {
        Tile::Empty
    } else if pushing_box {
        Tile::Box
    } else {
        Tile::Key
    }
}

/// The tile left behind by a pushed box or key: plain cells empty out, goal
/// cells revert to a goal.
pub open spec fn vacated_tile(from: Tile) -> Tile {
    if from == Tile::Box || from == Tile::Key {
        Tile::Empty
    } else {
        Tile::Goal
    }
}

/// What a cell shows once the player leaves it, judged from the cell's tile in
/// the as-loaded grid: goal cells reappear as goals, occupied cells empty out,
/// anything else keeps its as-loaded look.
pub open spec fn reverted_tile(original: Tile) -> Tile {
    if original == Tile::Player || original == Tile::Box || original == Tile::Key
        || original == Tile::LockedDoor {
        Tile::Empty
    } else if original == Tile::BoxInGoal || original == Tile::KeyInGoal {
        Tile::Goal
    } else {
        original
    }
}

/// The tile a byte of level text stands for, or `None` for an invalid byte.
/// The bytes are the ASCII codes of `- < ^ > v # P * ~ = @ + x s`.
pub open spec fn ascii_tile(a: u8) -> Option<Tile> {
    if a == 45 {  // '-'
        Some(Tile::Empty)
    } else if a == 60 {  // '<'
        Some(Tile::OneWayLeft)
    } else if a == 94 {  // '^'
        Some(Tile::OneWayUp)
    } else if a == 62 {  // '>'
        Some(Tile::OneWayRight)
    } else if a == 118 {  // 'v'
        Some(Tile::OneWayDown)
    } else if a == 35 {  // '#'
        Some(Tile::Wall)
    } else if a == 80 {  // 'P'
        Some(Tile::Player)
    } else if a == 42 {  // '*'
        Some(Tile::Key)
    } else if a == 126 {  // '~'
        Some(Tile::KeyInGoal)
    } else if a == 61 {  // '='
        Some(Tile::LockedDoor)
    } else if a == 64 {  // '@'
        Some(Tile::Box)
    } else if a == 43 {  // '+'
        Some(Tile::BoxInGoal)
    } else if a == 120 {  // 'x'
        Some(Tile::Goal)
    } else if a == 115 {  // 's'
        Some(Tile::Secret)
    } else {
        None
    }
}

/// The colors a tile is drawn with: its foreground and background.  The
/// player flashes by swapping its colors while `is_player_background` holds.
pub open spec fn tile_colors(t: Tile, is_player_background: bool) -> (Color, Color) {
    match t {
        Tile::Empty => (Color::LightBlue, Color::Default),
        Tile::OneWayLeft => (Color::LightBlue, Color::Default),
        Tile::OneWayUp => (Color::LightBlue, Color::Default),
        Tile::OneWayRight => (Color::LightBlue, Color::Default),
        Tile::OneWayDown => (Color::LightBlue, Color::Default),
        Tile::Wall => (Color::LightGreen, Color::Default),
        Tile::Player => if is_player_background {
            (Color::Default, Color::Yellow)
        } else {
            (Color::Yellow, Color::Default)
        },
        Tile::Key => (Color::LightCyan, Color::Default),
        Tile::KeyInGoal => (Color::LightPink, Color::Default),
        Tile::LockedDoor => (Color::LightRed, Color::Default),
        Tile::Box => (Color::LightCyan, Color::Default),
        Tile::BoxInGoal => (Color::LightPink, Color::Default),
        Tile::Goal => (Color::LightRed, Color::Default),
        Tile::Secret => (Color::LightBlue, Color::Default),
    }
}

/// The character a tile is drawn as.
pub open spec fn tile_symbol(t: Tile) -> Seq<char> {
    match t {
        Tile::Empty => "-"@,
        Tile::OneWayLeft => "<"@,
        Tile::OneWayUp => "^"@,
        Tile::OneWayRight => ">"@,
        Tile::OneWayDown => "v"@,
        Tile::Wall => "#"@,
        Tile::Player => "P"@,
        Tile::Key => "*"@,
        Tile::KeyInGoal => "*"@,
        Tile::LockedDoor => "="@,
        Tile::Box => "@"@,
        Tile::BoxInGoal => "@"@,
        Tile::Goal => "x"@,
        Tile::Secret => "+"@,
    }
}

/// The two drawing steps of one tile: its colors, then its symbol.
pub open spec fn tile_steps(t: Tile, is_player_background: bool) -> Seq<DrawStep> {
    seq![
        DrawStep::SetColor(tile_colors(t, is_player_background).0, tile_colors(t, is_player_background).1),
        DrawStep::Text(tile_symbol(t)),
    ]
}

impl Tile {
    /// Records the tile's colors and symbol; the player tile may flash with
    /// swapped colors.
    pub fn draw(&self, console: &mut Console, is_player_background: bool)
        ensures
            final(console)@ == old(console)@ + tile_steps(*self, is_player_background),
    {
        match self {
            Tile::Empty => {
                console.set_color(Color::LightBlue, Color::Default);
                console.draw_text("-");
            },
            Tile::OneWayLeft => {
                console.set_color(Color::LightBlue, Color::Default);
                console.draw_text("<");
            },
            Tile::OneWayUp => {
                console.set_color(Color::LightBlue, Color::Default);
                console.draw_text("^");
            },
            Tile::OneWayRight => {
                console.set_color(Color::LightBlue, Color::Default);
                console.draw_text(">");
            },
            Tile::OneWayDown => {
                console.set_color(Color::LightBlue, Color::Default);
                console.draw_text("v");
            },
            Tile::Wall => {
                console.set_color(Color::LightGreen, Color::Default);
                console.draw_text("#");
            },
            Tile::Player => {
                if is_player_background {
                    console.set_color(Color::Default, Color::Yellow);
                } else {
                    console.set_color(Color::Yellow, Color::Default);
                }
                console.draw_text("P");
            },
            Tile::Key => {
                console.set_color(Color::LightCyan, Color::Default);
                console.draw_text("*");
            },
            Tile::KeyInGoal => {
                console.set_color(Color::LightPink, Color::Default);
                console.draw_text("*");
            },
            Tile::LockedDoor => {
                console.set_color(Color::LightRed, Color::Default);
                console.draw_text("=");
            },
            Tile::Box => {
                console.set_color(Color::LightCyan, Color::Default);
                console.draw_text("@");
            },
            Tile::BoxInGoal => {
                console.set_color(Color::LightPink, Color::Default);
                console.draw_text("@");
            },
            Tile::Goal => {
                console.set_color(Color::LightRed, Color::Default);
                console.draw_text("x");
            },
            Tile::Secret => {
                console.set_color(Color::LightBlue, Color::Default);
                console.draw_text("+");
            },
        }
        proof {
            assert(console@ =~= old(console)@ + tile_steps(*self, is_player_background));
        }
    }

    /// Parses one byte of level text; exactly the bytes of [`ascii_tile`] are
    /// accepted.
    pub fn from_ascii(a: u8) -> (r: Result<Self, LevelLoadingError>)
        ensures
            match r {
                Ok(t) => ascii_tile(a) == Some(t),
                Err(_) => ascii_tile(a) is None,
            },
    {
        match a {
            45 => Ok(Tile::Empty),  // '-'

            60 => Ok(Tile::OneWayLeft),  // '<'
            94 => Ok(Tile::OneWayUp),  // '^'
            62 => Ok(Tile::OneWayRight),  // '>'
            118 => Ok(Tile::OneWayDown),  // 'v'

            35 => Ok(Tile::Wall),  // '#'

            80 => Ok(Tile::Player),  // 'P'

            42 => Ok(Tile::Key),  // '*'
            126 => Ok(Tile::KeyInGoal),  // '~'
            61 => Ok(Tile::LockedDoor),  // '='

            64 => Ok(Tile::Box),  // '@'
            43 => Ok(Tile::BoxInGoal),  // '+'
            120 => Ok(Tile::Goal),  // 'x'

            115 => Ok(Tile::Secret),  // 's'

            _ => Err(LevelLoadingError::new_str("Invalid tile")),
        }
    }
}

/// A rectangular grid of tiles addressed row-major by `(x, y)`.
#[derive(Debug)]
pub struct Level {
    width: usize,
    height: usize,
    tiles: Vec<Tile>,
}

impl Level {
    /// The tiles as a flat sequence, row-major.
    pub closed spec fn grid(&self) -> Seq<Tile> {
        self.tiles@
    }

    /// The width as a mathematical integer.
    pub closed spec fn spec_width(&self) -> int {
        self.width as int
    }

    /// The height as a mathematical integer.
    pub closed spec fn spec_height(&self) -> int {
        self.height as int
    }

    /// Both dimensions positive and exactly `width * height` tiles stored;
    /// the cell count fits the machine word, so flat indices never overflow.
    pub open spec fn wf(&self) -> bool {
        &&& self.spec_width() > 0
        &&& self.spec_height() > 0
        &&& self.spec_width() * self.spec_height() <= usize::MAX
        &&& self.grid().len() == self.spec_width() * self.spec_height()
    }

    /// Whether `(x, y)` lies on the grid.
    pub open spec fn in_bounds(&self, x: int, y: int) -> bool {
        0 <= x < self.spec_width() && 0 <= y < self.spec_height()
    }

    /// Flat index of cell `(x, y)`.
    pub open spec fn index_of(&self, x: int, y: int) -> int {
        x + y * self.spec_width()
    }

    /// The tile at cell `(x, y)`.
    pub open spec fn at(&self, x: int, y: int) -> Tile {
        self.grid()[self.index_of(x, y)]
    }

    /// Whether `other` covers exactly the same cells.
    pub open spec fn same_dims(&self, other: &Level) -> bool {
        self.spec_width() == other.spec_width() && self.spec_height() == other.spec_height()
    }

    /// Whether the cell one `(dx, dy)` step from `(x, y)` exists and accepts
    /// the tile currently at `(x, y)` being pushed onto it.
    pub open spec fn push_move_allowed(&self, x: int, y: int, dx: int, dy: int) -> bool {
        &&& self.in_bounds(x + dx, y + dy)
        &&& push_target_clear(is_box_tile(self.at(x, y)), self.at(x + dx, y + dy))
    }

    /// The grid after the tile at `(x, y)` has been pushed one `(dx, dy)`
    /// step: the source cell is vacated, the far cell takes the pushed tile.
    pub open spec fn push_move_result(&self, x: int, y: int, dx: int, dy: int) -> Seq<Tile> {
        self.grid().update(self.index_of(x, y), vacated_tile(self.at(x, y))).update(
            self.index_of(x + dx, y + dy),
            pushed_result(is_box_tile(self.at(x, y)), self.at(x + dx, y + dy)),
        )
    }

    /// The in-bounds cell one `(dx, dy)` step from `(x, y)`, or `None` when
    /// that step leaves the grid.
    pub fn step_target(&self, x: usize, y: usize, dx: isize, dy: isize) -> (r: Option<
        (usize, usize),
    >)
        requires
            self.wf(),
            self.in_bounds(x as int, y as int),
            (dx == -1 && dy == 0) || (dx == 1 && dy == 0) || (dx == 0 && dy == -1) || (dx == 0
                && dy == 1),
        ensures
            match r {
                Some(p) => self.in_bounds(x + dx, y + dy) && p.0 == x + dx && p.1 == y + dy,
                None => !self.in_bounds(x + dx, y + dy),
            },
    {
        if dx == -1 {
            if x == 0 {
                None
            } else {
                Some((x - 1, y))
            }
        } else if dx == 1 {
            if x + 1 >= self.width {
                None
            } else {
                Some((x + 1, y))
            }
        } else if dy == -1 {
            if y == 0 {
                None
            } else {
                Some((x, y - 1))
            }
        } else {
            if y + 1 >= self.height {
                None
            } else {
                Some((x, y + 1))
            }
        }
    }

    /// Pushes the box or key at `(pos_x, pos_y)` one `(move_x, move_y)` step.
    ///
    /// The push happens exactly when the far cell exists and is empty, a goal,
    /// or (for keys only) a locked door; otherwise nothing changes.  When a
    /// box lands in a goal, `has_won` is set to the win test's verdict; in
    /// every other case `has_won` keeps its value.
    pub fn move_box_or_key(
        &mut self,
        level_original: &Level,
        has_won: &mut bool,
        pos_x: usize,
        pos_y: usize,
        move_x: isize,
        move_y: isize,
    ) -> (moved: bool)
        requires
            old(self).wf(),
            level_original.wf(),
            old(self).same_dims(level_original),
            old(self).in_bounds(pos_x as int, pos_y as int),
            is_pushable_tile(old(self).at(pos_x as int, pos_y as int)),
            (move_x == -1 && move_y == 0) || (move_x == 1 && move_y == 0) || (move_x == 0 && move_y
                == -1) || (move_x == 0 && move_y == 1),
        ensures
            final(self).wf(),
            final(self).same_dims(old(self)),
            moved == old(self).push_move_allowed(
                pos_x as int,
                pos_y as int,
                move_x as int,
                move_y as int,
            ),
            moved ==> final(self).grid() == old(self).push_move_result(
                pos_x as int,
                pos_y as int,
                move_x as int,
                move_y as int,
            ),
            !moved ==> *final(self) == *old(self),
            ({
                let from = old(self).at(pos_x as int, pos_y as int);
                let to = old(self).at(pos_x + move_x, pos_y + move_y);
                if moved && is_box_tile(from) && to == Tile::Goal {
                    *final(has_won) == win_after_push(
                        old(self).grid(),
                        level_original.grid(),
                        old(self).index_of(pos_x as int, pos_y as int),
                        old(self).index_of(pos_x + move_x, pos_y + move_y),
                    )
                } else {
                    *final(has_won) == *old(has_won)
                }
            }),
    {
        let target = self.step_target(pos_x, pos_y, move_x, move_y);
        let Some((to_x, to_y)) = target else { return false };

        proof {
            lemma_grid_index_bound(pos_x as int, pos_y as int, self.spec_width(), self.spec_height());
            lemma_grid_index_bound(to_x as int, to_y as int, self.spec_width(), self.spec_height());
            lemma_step_changes_index(
                pos_x as int,
                pos_y as int,
                move_x as int,
                move_y as int,
                self.spec_width(),
            );
        }

        let index_from = pos_x + pos_y * self.width;
        let index_to = to_x + to_y * self.width;

        let tile_from = self.tiles[index_from];
        let tile_to = self.tiles[index_to];

        let is_box = tile_from == Tile::Box || tile_from == Tile::BoxInGoal;

        if tile_to == Tile::Empty || tile_to == Tile::Goal || (!is_box && tile_to
            == Tile::LockedDoor) {
            let tile_to_new_value = if is_box && tile_to == Tile::Goal {
                let mut won = true;
                let mut i: usize = 0;
                while i < self.tiles.len()
                    invariant
                        self.wf(),
                        i <= self.grid().len(),
                        index_to < self.grid().len(),
                        won == forall|j: int|
                            0 <= j < i && j != index_to ==> !is_open_goal(
                                #[trigger] self.grid()[j],
                            ),
                    decreases self.grid().len() - i,
                {
                    if i != index_to {
                        let tile = self.tiles[i];
                        if tile == Tile::Goal || tile == Tile::KeyInGoal {
                            won = false;
                        }
                    }
                    i += 1;
                }

                let tile_original = level_original.tiles[index_from];
                if tile_original == Tile::Goal || tile_original == Tile::BoxInGoal
                    || tile_original == Tile::KeyInGoal {
                    won = false;
                }

                *has_won = won;

                Tile::BoxInGoal
            } else if !is_box && tile_to == Tile::Goal {
                Tile::KeyInGoal
            } else if is_box {
                Tile::Box
            } else if tile_to == Tile::LockedDoor {
                Tile::Empty
            } else {
                Tile::Key
            };

            let tile_from_new_value = if tile_from == Tile::Box || tile_from == Tile::Key {
                Tile::Empty
            } else {
                Tile::Goal
            };

            self.set_tile(pos_x, pos_y, tile_from_new_value);
            self.set_tile(to_x, to_y, tile_to_new_value);

            return true;
        }

        false
    }

    /// Creates a level of the given size with every cell empty.
    pub fn new(width: usize, height: usize) -> (r: Self)
        requires
            width >= 1,
            height >= 1,
            width * height <= usize::MAX,
        ensures
            r.wf(),
            r.spec_width() == width,
            r.spec_height() == height,
            forall|i: int| 0 <= i < r.grid().len() ==> r.grid()[i] == Tile::Empty,
    {
        let count = width * height;
        let mut tiles: Vec<Tile> = Vec::new();
        let mut i: usize = 0;
        while i < count
            invariant
                i <= count,
                tiles@.len() == i,
                forall|j: int| 0 <= j < i ==> tiles@[j] == Tile::Empty,
            decreases count - i,
        {
            tiles.push(Tile::Empty);
            i += 1;
        }

        Level { width, height, tiles }
    }

    /// Decides [`Level::wf`] at run time, so that callers can establish
    /// well-formedness of a level they did not build themselves.
    pub fn check_wf(&self) -> (r: bool)
        ensures
            r == self.wf(),
    {
        if self.width == 0 || self.height == 0 {
            return false;
        }
        match self.width.checked_mul(self.height) {
            Some(cells) => cells == self.tiles.len(),
            None => false,
        }
    }

    /// The width in cells.
    pub fn width(&self) -> (w: usize)
        ensures
            w == self.spec_width(),
    {
        self.width
    }

    /// The height in cells.
    pub fn height(&self) -> (h: usize)
        ensures
            h == self.spec_height(),
    {
        self.height
    }

    /// The backing tile storage, row-major.
    pub fn tiles(&self) -> (t: &Vec<Tile>)
        ensures
            t@ == self.grid(),
    {
        &self.tiles
    }

    /// The tile at `(x, y)`, or `None` outside the grid.
    pub fn get_tile(&self, x: usize, y: usize) -> (r: Option<&Tile>)
        requires
            self.wf(),
        ensures
            match r {
                Some(t) => self.in_bounds(x as int, y as int) && *t == self.at(x as int, y as int),
                None => !self.in_bounds(x as int, y as int),
            },
    {
        if x < self.width && y < self.height {
            proof {
                lemma_grid_index_bound(x as int, y as int, self.spec_width(), self.spec_height());
            }
            Some(&self.tiles[x + y * self.width])
        } else {
            None
        }
    }

    /// Replaces the tile at `(x, y)`.
    pub fn set_tile(&mut self, x: usize, y: usize, tile: Tile)
        requires
            old(self).wf(),
            old(self).in_bounds(x as int, y as int),
        ensures
            final(self).wf(),
            final(self).same_dims(old(self)),
            final(self).grid() == old(self).grid().update(
                old(self).index_of(x as int, y as int),
                tile,
            ),
    {
        proof {
            lemma_grid_index_bound(x as int, y as int, self.spec_width(), self.spec_height());
        }
        self.tiles[x + y * self.width] = tile;
    }
}

/// The drawing steps of the first `n` tiles of row `y`, left to right.
pub open spec fn row_tile_steps(level: &Level, y: int, n: int, is_player_background: bool) -> Seq<
    DrawStep,
>
    decreases n,
{
    if n <= 0 {
        Seq::empty()
    } else {
        row_tile_steps(level, y, n - 1, is_player_background) + tile_steps(
            level.at(n - 1, y),
            is_player_background,
        )
    }
}

/// The drawing steps of the first `rows` rows of a level: for each row a
/// cursor move, its tiles, and a line break.
pub open spec fn level_row_steps(
    level: &Level,
    x_offset: int,
    y_offset: int,
    rows: int,
    is_player_background: bool,
) -> Seq<DrawStep>
    decreases rows,
{
    if rows <= 0 {
        Seq::empty()
    } else {
        level_row_steps(level, x_offset, y_offset, rows - 1, is_player_background) + seq![
            DrawStep::SetCursorPos(x_offset, rows - 1 + y_offset),
        ] + row_tile_steps(level, rows - 1, level.spec_width(), is_player_background) + seq![
            DrawStep::Text("\n"@),
        ]
    }
}

impl Level {
    /// Records the whole grid: each row at its offset position, tile by tile.
    pub fn draw(
        &self,
        console: &mut Console,
        x_offset: usize,
        y_offset: usize,
        is_player_background: bool,
    )
        requires
            self.wf(),
            y_offset + self.spec_height() <= usize::MAX,
        ensures
            final(console)@ == old(console)@ + level_row_steps(
                self,
                x_offset as int,
                y_offset as int,
                self.spec_height(),
                is_player_background,
            ),
    {
        let mut y: usize = 0;
        while y < self.height
            invariant
                self.wf(),
                y <= self.spec_height(),
                y_offset + self.spec_height() <= usize::MAX,
                console@ == old(console)@ + level_row_steps(
                    self,
                    x_offset as int,
                    y_offset as int,
                    y as int,
                    is_player_background,
                ),
            decreases self.spec_height() - y,
        {
            console.set_cursor_pos(x_offset, y + y_offset);

            let mut x: usize = 0;
            while x < self.width
                invariant
                    self.wf(),
                    y < self.spec_height(),
                    x <= self.spec_width(),
                    console@ == old(console)@ + level_row_steps(
                        self,
                        x_offset as int,
                        y_offset as int,
                        y as int,
                        is_player_background,
                    ) + seq![DrawStep::SetCursorPos(x_offset as int, y + y_offset)]
                        + row_tile_steps(self, y as int, x as int, is_player_background),
                decreases self.spec_width() - x,
            {
                proof {
                    lemma_grid_index_bound(x as int, y as int, self.spec_width(), self.spec_height());
                }
                let tile = self.tiles[x + y * self.width];
                tile.draw(console, is_player_background);
                x += 1;
            }

            console.draw_text("\n");
            y += 1;
            proof {
                assert(console@ =~= old(console)@ + level_row_steps(
                    self,
                    x_offset as int,
                    y_offset as int,
                    y as int,
                    is_player_background,
                ));
            }
        }
    }
}

impl Clone for Level {
    /// Deep copy: same dimensions, same tiles.
    fn clone(&self) -> (r: Self)
        ensures
            r.spec_width() == self.spec_width(),
            r.spec_height() == self.spec_height(),
            r.grid() == self.grid(),
    {
        let mut tiles: Vec<Tile> = Vec::new();
        let mut i: usize = 0;
        while i < self.tiles.len()
            invariant
                i <= self.tiles@.len(),
                tiles@.len() == i,
                forall|j: int| 0 <= j < i ==> tiles@[j] == self.tiles@[j],
            decreases self.tiles@.len() - i,
        {
            tiles.push(self.tiles[i]);
            i += 1;
        }

        let r = Level { width: self.width, height: self.height, tiles };
        proof {
            assert(r.grid() =~= self.grid());
        }
        r
    }
}

/// The win test made right after a box lands in a goal, judged on the grid
/// `tiles` as it stands *before* that push is written: the level is won when
/// no cell but the just-filled one (`to_idx`) shows an open goal, and the cell
/// the player is about to occupy (`from_idx`) is no goal cell in the as-loaded
/// grid `original` — the player's avatar would hide such a goal, so it cannot
/// count as done.
pub open spec fn win_after_push(
    tiles: Seq<Tile>,
    original: Seq<Tile>,
    from_idx: int,
    to_idx: int,
) -> bool {
    &&& forall|i: int| 0 <= i < tiles.len() && i != to_idx ==> !is_open_goal(#[trigger] tiles[i])
    &&& !is_goal_derived(original[from_idx])
}

/// One unit step always lands on a different flat index: horizontally the
/// index moves by one, vertically by a whole (nonzero) row.
pub proof fn lemma_step_changes_index(x: int, y: int, dx: int, dy: int, w: int) by (nonlinear_arith)
    requires
        w >= 1,
        (dx == -1 && dy == 0) || (dx == 1 && dy == 0) || (dx == 0 && dy == -1) || (dx == 0 && dy
            == 1),
    ensures
        x + y * w != (x + dx) + (y + dy) * w,
{
}

/// Two unit steps in the same direction also land on a different flat index
/// than the start: the index moves by two, or by two whole rows.
pub proof fn lemma_double_step_changes_index(
    x: int,
    y: int,
    dx: int,
    dy: int,
    w: int,
) by (nonlinear_arith)
    requires
        w >= 1,
        (dx == -1 && dy == 0) || (dx == 1 && dy == 0) || (dx == 0 && dy == -1) || (dx == 0 && dy
            == 1),
    ensures
        x + y * w != (x + 2 * dx) + (y + 2 * dy) * w,
{
}

/// In a `w`-by-`h` grid the flat index of an in-bounds cell lies below `w * h`.
pub proof fn lemma_grid_index_bound(x: int, y: int, w: int, h: int) by (nonlinear_arith)
    requires
        0 <= x < w,
        0 <= y < h,
    ensures
        0 <= x + y * w < w * h,
{
}

/// A level together with the player's best results on it.
#[derive(Debug)]
pub struct LevelWithStats {
    level: Level,
    best_time: Option<u64>,
    best_moves: Option<u32>,
}

impl LevelWithStats {
    /// The stored level.
    pub closed spec fn spec_level(&self) -> Level {
        self.level
    }

    /// Best completion time in milliseconds, if completed.
    pub closed spec fn spec_best_time(&self) -> Option<u64> {
        self.best_time
    }

    /// Fewest moves to completion, if completed.
    pub closed spec fn spec_best_moves(&self) -> Option<u32> {
        self.best_moves
    }

    /// Bundles a level with known best results.
    pub fn new(level: Level, best_time: Option<u64>, best_moves: Option<u32>) -> (r: Self)
        ensures
            r.spec_level() == level,
            r.spec_best_time() == best_time,
            r.spec_best_moves() == best_moves,
    {
        Self { level, best_time, best_moves }
    }

    /// The stored level.
    pub fn level(&self) -> (r: &Level)
        ensures
            *r == self.spec_level(),
    {
        &self.level
    }

    /// Best completion time in milliseconds, if completed.
    pub fn best_time(&self) -> (r: Option<u64>)
        ensures
            r == self.spec_best_time(),
    {
        self.best_time
    }

    /// Fewest moves to completion, if completed.
    pub fn best_moves(&self) -> (r: Option<u32>)
        ensures
            r == self.spec_best_moves(),
    {
        self.best_moves
    }

    /// Best time and best moves together.
    pub fn stats(&self) -> (r: (Option<u64>, Option<u32>))
        ensures
            r.0 == self.spec_best_time(),
            r.1 == self.spec_best_moves(),
    {
        (self.best_time, self.best_moves)
    }

    /// The stored level, for editing in place.
    pub fn level_mut(&mut self) -> (r: &mut Level)
        ensures
            *r == old(self).spec_level(),
            final(self).spec_level() == *final(r),
            final(self).spec_best_time() == old(self).spec_best_time(),
            final(self).spec_best_moves() == old(self).spec_best_moves(),
    {
        &mut self.level
    }

    /// Replaces the stored level.
    pub fn set_level(&mut self, level: Level)
        ensures
            final(self).spec_level() == level,
            final(self).spec_best_time() == old(self).spec_best_time(),
            final(self).spec_best_moves() == old(self).spec_best_moves(),
    {
        self.level = level;
    }

    /// Replaces the best time.
    pub fn set_best_time(&mut self, best_time: Option<u64>)
        ensures
            final(self).spec_level() == old(self).spec_level(),
            final(self).spec_best_time() == best_time,
            final(self).spec_best_moves() == old(self).spec_best_moves(),
    {
        self.best_time = best_time;
    }

    /// Replaces the best move count.
    pub fn set_best_moves(&mut self, best_moves: Option<u32>)
        ensures
            final(self).spec_level() == old(self).spec_level(),
            final(self).spec_best_time() == old(self).spec_best_time(),
            final(self).spec_best_moves() == best_moves,
    {
        self.best_moves = best_moves;
    }

    /// Replaces both best results.
    pub fn set_stats(&mut self, best_time: Option<u64>, best_moves: Option<u32>)
        ensures
            final(self).spec_level() == old(self).spec_level(),
            final(self).spec_best_time() == best_time,
            final(self).spec_best_moves() == best_moves,
    {
        self.best_time = best_time;
        self.best_moves = best_moves;
    }
}

/// Most level packs a game may hold.
pub const MAX_LEVEL_PACK_COUNT: usize = 64;

/// Most levels one pack may hold.
pub const MAX_LEVEL_COUNT_PER_PACK: usize = 192;

/// The mathematical sum of all best times, or `None` when any level has none.
pub open spec fn times_total(levels: Seq<LevelWithStats>) -> Option<int>
    decreases levels.len(),
{
    if levels.len() == 0 {
        Some(0)
    } else {
        match (times_total(levels.drop_last()), levels.last().spec_best_time()) {
            (Some(acc), Some(t)) => Some(acc + t),
            _ => None,
        }
    }
}

/// The mathematical sum of all best move counts, or `None` when any level has
/// none.
pub open spec fn moves_total(levels: Seq<LevelWithStats>) -> Option<int>
    decreases levels.len(),
{
    if levels.len() == 0 {
        Some(0)
    } else {
        match (moves_total(levels.drop_last()), levels.last().spec_best_moves()) {
            (Some(acc), Some(m)) => Some(acc + m),
            _ => None,
        }
    }
}

/// A total clamped into a machine integer range: sums too large for the
/// display saturate instead of failing.
pub open spec fn clamped(total: Option<int>, max: int) -> Option<int> {
    match total {
        Some(v) => Some(if v > max { max } else { v }),
        None => None,
    }
}

/// What a pack's stored stat sums must say about its levels.
pub open spec fn sums_consistent(pack: &LevelPack) -> bool {
    &&& (if pack.spec_levels().len() == 0 {
        pack.spec_best_time_sum() is None
    } else {
        match pack.spec_best_time_sum() {
            Some(v) => clamped(times_total(pack.spec_levels()), u64::MAX as int) == Some(v as int),
            None => times_total(pack.spec_levels()) is None,
        }
    })
    &&& (if pack.spec_levels().len() == 0 {
        pack.spec_best_moves_sum() is None
    } else {
        match pack.spec_best_moves_sum() {
            Some(v) => clamped(moves_total(pack.spec_levels()), u32::MAX as int) == Some(v as int),
            None => moves_total(pack.spec_levels()) is None,
        }
    })
}

/// A named group of levels with the player's progress and summed best
/// results.
#[derive(Debug)]
pub struct LevelPack {
    id: String,
    path: String,
    levels: Vec<LevelWithStats>,
    min_level_not_completed: usize,
    level_pack_best_time_sum: Option<u64>,
    level_pack_best_moves_sum: Option<u32>,
}

impl LevelPack {
    /// The pack's identifier.
    pub closed spec fn spec_id(&self) -> Seq<char> {
        self.id@
    }

    /// Where the pack was loaded from.
    pub closed spec fn spec_path(&self) -> Seq<char> {
        self.path@
    }

    /// The levels in play order.
    pub closed spec fn spec_levels(&self) -> Seq<LevelWithStats> {
        self.levels@
    }

    /// Index of the first level not yet completed.
    pub closed spec fn spec_min_level_not_completed(&self) -> int {
        self.min_level_not_completed as int
    }

    /// Stored sum of best times.
    pub closed spec fn spec_best_time_sum(&self) -> Option<u64> {
        self.level_pack_best_time_sum
    }

    /// Stored sum of best move counts.
    pub closed spec fn spec_best_moves_sum(&self) -> Option<u32> {
        self.level_pack_best_moves_sum
    }

    /// An empty pack with the given identifier and source path.
    pub fn new(id: String, path: String) -> (r: Self)
        ensures
            r.spec_id() == id@,
            r.spec_path() == path@,
            r.spec_levels().len() == 0,
            r.spec_min_level_not_completed() == 0,
            r.spec_best_time_sum() is None,
            r.spec_best_moves_sum() is None,
            sums_consistent(&r),
    {
        Self {
            id,
            path,
            levels: Vec::new(),
            min_level_not_completed: 0,
            level_pack_best_time_sum: None,
            level_pack_best_moves_sum: None,
        }
    }

    /// The pack's identifier.
    pub fn id(&self) -> (r: &str)
        ensures
            r@ == self.spec_id(),
    {
        self.id.as_str()
    }

    /// Where the pack was loaded from.
    pub fn path(&self) -> (r: &str)
        ensures
            r@ == self.spec_path(),
    {
        self.path.as_str()
    }

    /// The levels in play order.
    pub fn levels(&self) -> (r: &Vec<LevelWithStats>)
        ensures
            r@ == self.spec_levels(),
    {
        &self.levels
    }

    /// The levels in play order, for editing in place.  The stored stat sums
    /// are not recomputed by edits made through this; callers that change
    /// best results go through [`LevelPack::update_stats`] instead.
    pub fn levels_mut(&mut self) -> (r: &mut Vec<LevelWithStats>)
        ensures
            r@ == old(self).spec_levels(),
            final(self).spec_levels() == final(r)@,
            final(self).spec_id() == old(self).spec_id(),
            final(self).spec_path() == old(self).spec_path(),
            final(self).spec_min_level_not_completed() == old(
                self,
            ).spec_min_level_not_completed(),
            final(self).spec_best_time_sum() == old(self).spec_best_time_sum(),
            final(self).spec_best_moves_sum() == old(self).spec_best_moves_sum(),
    {
        &mut self.levels
    }

    /// Index of the first level not yet completed.
    pub fn min_level_not_completed(&self) -> (r: usize)
        ensures
            r == self.spec_min_level_not_completed(),
    {
        self.min_level_not_completed
    }

    /// Stored sum of best times; `None` while any level lacks one.
    pub fn level_pack_best_time_sum(&self) -> (r: Option<u64>)
        ensures
            r == self.spec_best_time_sum(),
    {
        self.level_pack_best_time_sum
    }

    /// Stored sum of best move counts; `None` while any level lacks one.
    pub fn level_pack_best_moves_sum(&self) -> (r: Option<u32>)
        ensures
            r == self.spec_best_moves_sum(),
    {
        self.level_pack_best_moves_sum
    }

    /// Moves the completion watermark.
    pub fn set_min_level_not_completed(&mut self, min_level_not_completed: usize)
        ensures
            final(self).spec_min_level_not_completed() == min_level_not_completed,
            final(self).spec_levels() == old(self).spec_levels(),
            final(self).spec_id() == old(self).spec_id(),
            final(self).spec_path() == old(self).spec_path(),
            final(self).spec_best_time_sum() == old(self).spec_best_time_sum(),
            final(self).spec_best_moves_sum() == old(self).spec_best_moves_sum(),
    {
        self.min_level_not_completed = min_level_not_completed;
    }

    /// Number of levels in the pack.
    pub fn level_count(&self) -> (r: usize)
        ensures
            r == self.spec_levels().len(),
    {
        self.levels.len()
    }

    /// Records a new result for the level at `index`: each best value only
    /// ever improves.  Returns `None` (and changes nothing) for an index
    /// beyond the pack.
    pub fn update_stats(&mut self, index: usize, best_time: u64, best_moves: u32) -> (r: Option<
        (),
    >)
        ensures
            final(self).spec_id() == old(self).spec_id(),
            final(self).spec_path() == old(self).spec_path(),
            final(self).spec_min_level_not_completed() == old(
                self,
            ).spec_min_level_not_completed(),
            ({
                if index < old(self).spec_levels().len() {
                    let stored = old(self).spec_levels()[index as int];
                    let new_time = if stored.spec_best_time() is None || best_time < stored.spec_best_time()->0 {
                        Some(best_time)
                    } else {
                        stored.spec_best_time()
                    };
                    let new_moves = if stored.spec_best_moves() is None || best_moves < stored.spec_best_moves()->0 {
                        Some(best_moves)
                    } else {
                        stored.spec_best_moves()
                    };
                    &&& r is Some
                    &&& final(self).spec_levels().len() == old(self).spec_levels().len()
                    &&& final(self).spec_levels()[index as int].spec_level() == stored.spec_level()
                    &&& final(self).spec_levels()[index as int].spec_best_time() == new_time
                    &&& final(self).spec_levels()[index as int].spec_best_moves() == new_moves
                    &&& (forall|i: int|
                        0 <= i < old(self).spec_levels().len() && i != index
                            ==> final(self).spec_levels()[i] == old(self).spec_levels()[i])
                    &&& sums_consistent(final(self))
                } else {
                    &&& r is None
                    &&& *final(self) == *old(self)
                }
            }),
    {
        if index >= self.levels.len() {
            return None;
        }

        let stored_time = self.levels[index].best_time;
        let improves_time = match stored_time {
            None => true,
            Some(t) => best_time < t,
        };
        if improves_time {
            self.levels[index].best_time = Some(best_time);
        }

        let stored_moves = self.levels[index].best_moves;
        let improves_moves = match stored_moves {
            None => true,
            Some(m) => best_moves < m,
        };
        if improves_moves {
            self.levels[index].best_moves = Some(best_moves);
        }

        self.calculate_stats_sum();

        Some(())
    }

    /// Appends a level without best results and refreshes the sums (which
    /// thereby become `None` until the new level is completed).
    pub fn add_level(&mut self, level: Level)
        ensures
            final(self).spec_id() == old(self).spec_id(),
            final(self).spec_path() == old(self).spec_path(),
            final(self).spec_min_level_not_completed() == old(
                self,
            ).spec_min_level_not_completed(),
            final(self).spec_levels().len() == old(self).spec_levels().len() + 1,
            final(self).spec_levels().last().spec_level() == level,
            final(self).spec_levels().last().spec_best_time() is None,
            final(self).spec_levels().last().spec_best_moves() is None,
            final(self).spec_levels().drop_last() == old(self).spec_levels(),
            sums_consistent(final(self)),
    {
        self.levels.push(LevelWithStats::new(level, None, None));

        self.calculate_stats_sum();

        proof {
            assert(final(self).spec_levels().drop_last() =~= old(self).spec_levels());
        }
    }

    /// Recomputes both stored sums from the levels, saturating at the integer
    /// limits.
    fn calculate_stats_sum(&mut self)
        ensures
            final(self).spec_id() == old(self).spec_id(),
            final(self).spec_path() == old(self).spec_path(),
            final(self).spec_levels() == old(self).spec_levels(),
            final(self).spec_min_level_not_completed() == old(
                self,
            ).spec_min_level_not_completed(),
            sums_consistent(final(self)),
    {
        if self.levels.len() == 0 {
            self.level_pack_best_time_sum = None;
            self.level_pack_best_moves_sum = None;
            return;
        }

        let mut time_sum: Option<u64> = Some(0);
        let mut moves_sum: Option<u32> = Some(0);
        let mut i: usize = 0;

        while i < self.levels.len()
            invariant
                i <= self.levels@.len(),
                match time_sum {
                    Some(v) => clamped(times_total(self.levels@.take(i as int)), u64::MAX as int)
                        == Some(v as int),
                    None => times_total(self.levels@.take(i as int)) is None,
                },
                match moves_sum {
                    Some(v) => clamped(moves_total(self.levels@.take(i as int)), u32::MAX as int)
                        == Some(v as int),
                    None => moves_total(self.levels@.take(i as int)) is None,
                },
            decreases self.levels@.len() - i,
        {
            proof {
                assert(self.levels@.take(i + 1).drop_last() =~= self.levels@.take(i as int));
                assert(self.levels@.take(i + 1).last() == self.levels@[i as int]);
            }

            time_sum = match (time_sum, self.levels[i].best_time) {
                (Some(acc), Some(t)) => {
                    if acc > u64::MAX - t {
                        Some(u64::MAX)
                    } else {
                        Some(acc + t)
                    }
                },
                _ => None,
            };

            moves_sum = match (moves_sum, self.levels[i].best_moves) {
                (Some(acc), Some(m)) => {
                    if acc > u32::MAX - m {
                        Some(u32::MAX)
                    } else {
                        Some(acc + m)
                    }
                },
                _ => None,
            };

            i += 1;
        }

        proof {
            assert(self.levels@.take(self.levels@.len() as int) =~= self.levels@);
        }

        self.level_pack_best_time_sum = time_sum;
        self.level_pack_best_moves_sum = moves_sum;
    }
}

/// Raised when level text cannot be parsed.
#[derive(Debug)]
pub struct LevelLoadingError {
    message: String,
}

impl LevelLoadingError {
    /// Wraps a static description.
    pub(crate) fn new_str(message: &str) -> (r: Self)
        ensures
            r.spec_message() == message@,
    {
        LevelLoadingError { message: message.to_owned() }
    }

    /// The description carried by the error.
    pub closed spec fn spec_message(&self) -> Seq<char> {
        self.message@
    }

    /// The description carried by the error.
    pub fn message(&self) -> (m: &str)
        ensures
            m@ == self.spec_message(),
    {
        self.message.as_str()
    }
}

} // verus!
