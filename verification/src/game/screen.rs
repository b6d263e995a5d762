//! The game's screens: start menu, pack and level selection, and play.

use vstd::prelude::*;
use vstd::string::StringExecFns;
use vstd::utf8::is_ascii_chars;
use crate::console::{
    Color, Console, KEY_DOWN, KEY_ENTER, KEY_ESC, KEY_F1, KEY_LEFT, KEY_RIGHT, KEY_UP,
};
use crate::game::level::{Level, Tile, MAX_LEVEL_PACK_COUNT};
use crate::game::resolver::{
    after_plain_step, after_push_step, attempt_move, can_push, can_step, dir_dx, dir_dy,
    push_wins, Direction, MoveOutcome,
};
use crate::game::screen::dialog::{dialog_click, dialog_steps, draw_yes_no, yes_no_mouse_selection, DialogSelection, DialogYesNo};
use crate::game::screen::utils::number_to_string_leading_ascii;
use crate::game::GameState;
use crate::text::u64_padded;

pub mod dialog;
pub mod utils;

verus! {

/// Smallest console width the game draws on.
pub const CONSOLE_MIN_WIDTH: usize = 74;

/// Smallest console height the game draws on.
pub const CONSOLE_MIN_HEIGHT: usize = 23;

/// Key code of the lowercase `y` key.
pub const KEY_YES: i32 = 121;

/// Key code of the lowercase `n` key.
pub const KEY_NO: i32 = 110;

/// Key code of the lowercase `z` key.
pub const KEY_STEP_BACK: i32 = 122;

/// Key code of the lowercase `r` key.
pub const KEY_RESET: i32 = 114;

/// The screens the game can show.
#[derive(Debug, Clone, Copy, PartialEq, Eq, Structural, Hash)]
pub enum ScreenId {
    StartMenu,
    SelectLevelPack,
    SelectLevel,
    InGame,
}

/// One screen of the game; the game loop forwards drawing and input to the
/// screen that [`GameState::current_screen_id`] names.
pub trait Screen {
    /// Records the whole screen.
    fn draw(&self, game_state: &GameState, console: &mut Console);

    /// Called once per tick.
    fn update(&mut self, game_state: &mut GameState) {
    }

    /// Called for every key press.
    fn on_key_pressed(&mut self, game_state: &mut GameState, key: i32) {
    }

    /// Called for every mouse click.
    fn on_mouse_pressed(&mut self, game_state: &mut GameState, column: usize, row: usize) {
    }

    /// Called when play resumes after the help page or a dialog closes.
    fn on_continue(&mut self, game_state: &mut GameState) {
    }

    /// Called when this screen becomes the current one.
    fn on_set_screen(&mut self, game_state: &mut GameState) {
    }
}

/// A yes/no message window; same window as
/// [`crate::game::screen::dialog::DialogYesNo`], answering with a plain
/// `bool`.
pub struct Dialog {
    message: String,
}

impl Dialog {
    /// The question shown.
    pub closed spec fn spec_message(&self) -> Seq<char> {
        self.message@
    }

    /// A short ASCII question fits the dialog window.
    #[verifier::type_invariant]
    pub closed spec fn wf(&self) -> bool {
        &&& self.spec_message().len() <= 64
        &&& is_ascii_chars(self.spec_message())
    }

    /// Wraps a question; it must be short enough for one dialog row.
    pub fn new(message: String) -> (r: Self)
        requires
            message@.len() <= 64,
            is_ascii_chars(message@),
        ensures
            r.spec_message() == message@,
    {
        Self { message }
    }

    /// Records the dialog window as
    /// [`crate::game::screen::dialog::dialog_steps`] lays it out.
    pub fn draw(&self, console: &mut Console, console_width: usize, console_height: usize)
        ensures
            final(console)@ == old(console)@ + dialog_steps(
                self.spec_message(),
                console_width as int,
                console_height as int,
            ),
    {
        proof {
            use_type_invariant(self);
        }
        draw_yes_no(&self.message, console, console_width, console_height);
    }

    /// `Some(true)` for a click on `[y]es`, `Some(false)` for one on `[n]o`.
    pub fn on_mouse_pressed(
        &self,
        console_width: usize,
        console_height: usize,
        column: usize,
        row: usize,
    ) -> (r: Option<bool>)
        ensures
            r == match dialog_click(
                self.spec_message(),
                console_width as int,
                console_height as int,
                column as int,
                row as int,
            ) {
                Some(DialogSelection::Yes) => Some(true),
                Some(DialogSelection::No) => Some(false),
                None => None::<bool>,
            },
    {
        proof {
            use_type_invariant(self);
        }
        match yes_no_mouse_selection(&self.message, console_width, console_height, column, row) {
            Some(DialogSelection::Yes) => Some(true),
            Some(DialogSelection::No) => Some(false),
            None => None,
        }
    }
}

/// The title screen.
pub struct ScreenStartMenu {}

impl ScreenStartMenu {
    /// The title screen has no state of its own.
    pub fn new() -> (r: Self)
    {
        Self {  }
    }

    /// Handles a key press: `y`/`n` answer the exit dialog, escape opens it,
    /// F1 opens the help pages, and enter starts the game.
    pub fn handle_key(&mut self, game_state: &mut GameState, key: i32)
        ensures
            ({
                let g = *old(game_state);
                if g.dialog is Some {
                    if key == KEY_YES {
                        *final(game_state) == (GameState {
                            dialog: None,
                            should_exit: true,
                            ..g
                        })
                    } else if key == KEY_NO {
                        *final(game_state) == (GameState { dialog: None, ..g })
                    } else {
                        *final(game_state) == g
                    }
                } else if key == KEY_ESC {
                    final(game_state).dialog matches Some(d) && d.spec_message()
                        == "Exit game?"@ && *final(game_state) == (GameState {
                        dialog: final(game_state).dialog,
                        ..g
                    })
                } else if key == KEY_F1 {
                    *final(game_state) == (GameState { is_help: true, ..g })
                } else if key == KEY_ENTER {
                    *final(game_state) == (GameState {
                        current_screen_id: ScreenId::SelectLevelPack,
                        should_call_on_set_screen: true,
                        ..g
                    })
                } else {
                    *final(game_state) == g
                }
            }),
    {
        if game_state.is_dialog_opened() {
            if key == KEY_YES {
                game_state.close_dialog();
                game_state.exit();

                return;
            } else if key == KEY_NO {
                game_state.close_dialog();
            }

            return;
        }

        if key == KEY_ESC {
            proof {
                reveal_strlit("Exit game?");
            }
            game_state.open_dialog(DialogYesNo::new(String::from_str("Exit game?")));

            return;
        }

        if key == KEY_F1 {
            game_state.open_help_page();

            return;
        }

        if key == KEY_ENTER {
            game_state.set_screen(ScreenId::SelectLevelPack);
        }
    }

    /// Handles a click: the `ENTER` hint starts the game, the `Help: F1` hint
    /// opens the help pages; clicks do nothing while a dialog is open.
    pub fn handle_mouse(&mut self, game_state: &mut GameState, column: usize, row: usize)
        ensures
            ({
                let g = *old(game_state);
                if g.dialog is Some {
                    *final(game_state) == g
                } else if row == 16 && 26 < column < 32 {
                    *final(game_state) == (GameState {
                        current_screen_id: ScreenId::SelectLevelPack,
                        should_call_on_set_screen: true,
                        ..g
                    })
                } else if row == 21 && 64 < column < 73 {
                    *final(game_state) == (GameState { is_help: true, ..g })
                } else {
                    *final(game_state) == g
                }
            }),
    {
        if game_state.is_dialog_opened() {
            return;
        }

        if row == 16 && column > 26 && column < 32 {
            self.handle_key(game_state, KEY_ENTER);
        }

        if row == 21 && column > 64 && column < 73 {
            game_state.open_help_page();
        }
    }

    /// Records the title screen: border, logo, version, and the key hints.
    pub fn draw_screen(&self, console: &mut Console) {
        // Border (top)
        console.set_color(Color::White, Color::Blue);
        console.draw_text(
            "/------------------------------------------------------------------------\\\n",
        );

        // Logo
        console.set_color(Color::LightYellow, Color::Default);
        console.draw_text(
            "                -----------------------------------------\n                .---- .---. |  ./ .---. .--.  .---. .   .\n                |     |   | | /'  |   | |   : |   | |\\  |\n                '---. |   | :{    |   | +---+ +---+ | \\ |\n                    | |   | | \\.  |   | |   : |   | |  \\|\n                ----' '---' |  '\\ '---' '--'  |   | '   '\n                -----------------------------------------\n\n\n\n\n\n-------------------------------------------------------------------------",
        );

        // Version note, right-aligned
        console.reset_color();
        console.set_cursor_pos(57, 14);
        console.draw_text("Version: 0.1.0");

        console.set_cursor_pos(21, 16);
        console.draw_text("Press ");
        console.set_color(Color::LightRed, Color::Default);
        console.draw_text("ENTER");
        console.reset_color();
        console.draw_text(" to start the game!");

        console.set_cursor_pos(1, 21);
        console.draw_text("By ");
        console.set_color(Color::Default, Color::Yellow);
        console.draw_text("JDDev0");

        console.reset_color();
        console.set_cursor_pos(65, 21);
        console.draw_text("Help: ");
        console.set_color(Color::LightRed, Color::Default);
        console.draw_text("F1");

        // Border (sides and bottom)
        console.set_color(Color::White, Color::Blue);
        let mut i: usize = 1;
        while i < CONSOLE_MIN_HEIGHT - 1
            decreases CONSOLE_MIN_HEIGHT - i,
        {
            console.set_cursor_pos(0, i);
            console.draw_text("|");

            console.set_cursor_pos(CONSOLE_MIN_WIDTH - 1, i);
            console.draw_text("|");
            i += 1;
        }
        console.draw_text(
            "\n\\------------------------------------------------------------------------/",
        );
    }
}

impl Screen for ScreenStartMenu {
    fn draw(&self, game_state: &GameState, console: &mut Console) {
        self.draw_screen(console);
    }

    fn on_key_pressed(&mut self, game_state: &mut GameState, key: i32) {
        self.handle_key(game_state, key);
    }

    fn on_mouse_pressed(&mut self, game_state: &mut GameState, column: usize, row: usize) {
        self.handle_mouse(game_state, column, row);
    }
}

/// A summed best time as `d:hh:mm:ss.mmm`.
fn best_time_sum_text(t: u64) -> (s: String)
    ensures
        s@ == crate::text::padded_dec((t / 86400000) as int, 1, true) + ":"@ + crate::text::padded_dec(
            ((t / 3600000) % 24) as int,
            2,
            true,
        ) + ":"@ + crate::text::padded_dec(((t / 60000) % 60) as int, 2, true) + ":"@
            + crate::text::padded_dec(((t / 1000) % 60) as int, 2, true) + "."@
            + crate::text::padded_dec((t % 1000) as int, 3, true),
{
    let mut s = u64_padded(t / 86400000, 1, true);
    s.append(":");
    let part = u64_padded((t / 3600000) % 24, 2, true);
    s.append(part.as_str());
    s.append(":");
    let part = u64_padded((t / 60000) % 60, 2, true);
    s.append(part.as_str());
    s.append(":");
    let part = u64_padded((t / 1000) % 60, 2, true);
    s.append(part.as_str());
    s.append(".");
    let part = u64_padded(t % 1000, 3, true);
    s.append(part.as_str());
    s
}

/// A single level's best time as `mm:ss.mmm`.
fn best_time_text(t: u64) -> (s: String)
    ensures
        s@ == crate::text::padded_dec((t / 60000) as int, 2, true) + ":"@
            + crate::text::padded_dec(((t % 60000) / 1000) as int, 2, true) + "."@
            + crate::text::padded_dec((t % 1000) as int, 3, true),
{
    let mut s = u64_padded(t / 60000, 2, true);
    s.append(":");
    let part = u64_padded((t % 60000) / 1000, 2, true);
    s.append(part.as_str());
    s.append(".");
    let part = u64_padded(t % 1000, 3, true);
    s.append(part.as_str());
    s
}

/// The level-pack selection screen.
pub struct ScreenSelectLevelPack {}

impl ScreenSelectLevelPack {
    /// The pack selection has no state of its own.
    pub fn new() -> (r: Self)
    {
        Self {  }
    }

    /// Handles a key press: arrows move the selection on a 24-wide grid,
    /// enter opens the level selection at the first unsolved level, escape
    /// returns to the start menu, F1 opens the help pages.
    pub fn handle_key(&mut self, game_state: &mut GameState, key: i32)
        ensures
            ({
                let g = *old(game_state);
                let idx = g.current_level_pack_index as int;
                let count = g.level_packs@.len() as int;
                if key == KEY_ESC {
                    *final(game_state) == (GameState {
                        current_screen_id: ScreenId::StartMenu,
                        should_call_on_set_screen: true,
                        ..g
                    })
                } else if key == KEY_F1 {
                    *final(game_state) == (GameState { is_help: true, ..g })
                } else if key == KEY_LEFT {
                    if idx == 0 {
                        *final(game_state) == g
                    } else {
                        *final(game_state) == (GameState {
                            current_level_pack_index: (idx - 1) as usize,
                            ..g
                        })
                    }
                } else if key == KEY_UP {
                    if idx <= 24 {
                        *final(game_state) == g
                    } else {
                        *final(game_state) == (GameState {
                            current_level_pack_index: (idx - 24) as usize,
                            ..g
                        })
                    }
                } else if key == KEY_RIGHT {
                    if idx + 1 >= count {
                        *final(game_state) == g
                    } else {
                        *final(game_state) == (GameState {
                            current_level_pack_index: (idx + 1) as usize,
                            ..g
                        })
                    }
                } else if key == KEY_DOWN {
                    if idx + 24 >= count {
                        *final(game_state) == g
                    } else {
                        *final(game_state) == (GameState {
                            current_level_pack_index: (idx + 24) as usize,
                            ..g
                        })
                    }
                } else if key == KEY_ENTER {
                    if idx < count {
                        let pack = g.level_packs@[idx];
                        let first = if pack.spec_min_level_not_completed()
                            == pack.spec_levels().len() {
                            0
                        } else {
                            pack.spec_min_level_not_completed()
                        };
                        *final(game_state) == (GameState {
                            current_level_index: first as usize,
                            current_screen_id: ScreenId::SelectLevel,
                            should_call_on_set_screen: true,
                            ..g
                        })
                    } else {
                        *final(game_state) == g
                    }
                } else {
                    *final(game_state) == g
                }
            }),
    {
        if key == KEY_ESC {
            game_state.set_screen(ScreenId::StartMenu);

            return;
        }

        if key == KEY_F1 {
            game_state.open_help_page();

            return;
        }

        let index = game_state.get_level_pack_index();
        let count = game_state.get_level_pack_count();

        if key == KEY_LEFT {
            if index > 0 {
                game_state.set_level_pack_index(index - 1);
            }
        } else if key == KEY_UP {
            if index > 24 {
                game_state.set_level_pack_index(index - 24);
            }
        } else if key == KEY_RIGHT {
            if count > 0 && index < count - 1 {
                game_state.set_level_pack_index(index + 1);
            }
        } else if key == KEY_DOWN {
            if count >= 24 && index < count - 24 {
                game_state.set_level_pack_index(index + 24);
            }
        } else if key == KEY_ENTER {
            let first = match game_state.get_current_level_pack() {
                Some(pack) => {
                    if pack.min_level_not_completed() == pack.level_count() {
                        0
                    } else {
                        pack.min_level_not_completed()
                    }
                },
                None => { return },
            };
            game_state.set_level_index(first);
            game_state.set_screen(ScreenId::SelectLevel);
        }
    }

    /// Handles a click: a click on a pack box selects that pack and enters
    /// it.
    pub fn handle_mouse(&mut self, game_state: &mut GameState, column: usize, row: usize)
        ensures
            ({
                let g = *old(game_state);
                let count = g.level_packs@.len() as int;
                let idx = column as int / 3 + (row as int - 1) / 2 * 24;
                if row == 0 || idx >= count || idx > usize::MAX {
                    *final(game_state) == g
                } else {
                    let pack = g.level_packs@[idx];
                    let first = if pack.spec_min_level_not_completed()
                        == pack.spec_levels().len() {
                        0
                    } else {
                        pack.spec_min_level_not_completed()
                    };
                    *final(game_state) == (GameState {
                        current_level_pack_index: idx as usize,
                        current_level_index: first as usize,
                        current_screen_id: ScreenId::SelectLevel,
                        should_call_on_set_screen: true,
                        ..g
                    })
                }
            }),
    {
        if row == 0 {
            return;
        }

        let base = match ((row - 1) / 2).checked_mul(24) {
            Some(b) => b,
            None => { return },
        };
        let level_pack_index = match (column / 3).checked_add(base) {
            Some(i) => i,
            None => { return },
        };

        if level_pack_index < game_state.get_level_pack_count() {
            game_state.set_level_pack_index(level_pack_index);
            self.handle_key(game_state, KEY_ENTER);
        }
    }

    /// Records the pack selection screen: one numbered box per pack, green
    /// once every level in it is solved, the selection marked, and the summed
    /// best results of the selected pack below.
    pub fn draw_screen(&self, game_state: &GameState, console: &mut Console) {
        console.reset_color();
        console.set_underline(true);
        console.draw_text("Select a level pack:");
        console.set_underline(false);

        let count = game_state.get_level_pack_count();
        if count > MAX_LEVEL_PACK_COUNT {
            // More packs than the game ever loads would not fit any console.
            return;
        }

        // Top line of the first row of boxes
        console.set_cursor_pos(0, 1);
        console.draw_text("-");
        let max = if count / 24 > 0 {
            24
        } else {
            count % 24
        };
        let mut i: usize = 0;
        while i < max
            invariant
                max <= 24,
            decreases max - i,
        {
            let x = 1 + (i % 24) * 3;
            console.set_cursor_pos(x, 1);
            console.draw_text("---");
            i += 1;
        }

        let mut i: usize = 0;
        while i < count
            invariant
                count <= MAX_LEVEL_PACK_COUNT,
                count == game_state.level_packs@.len(),
            decreases count - i,
        {
            let x = 1 + (i % 24) * 3;
            let y = 2 + (i / 24) * 2;

            if x == 1 {
                console.set_cursor_pos(x - 1, y);
                console.draw_text("|");

                console.set_cursor_pos(x - 1, y + 1);
                console.draw_text("-");
            }

            console.set_cursor_pos(x, y);
            let done = game_state.level_packs()[i].level_pack_best_moves_sum();
            console.set_color(
                Color::Black,
                if done.is_some() {
                    Color::Green
                } else {
                    Color::Yellow
                },
            );
            let number = u64_padded((i + 1) as u64, 2, false);
            console.draw_text(number.as_str());

            console.reset_color();
            console.draw_text("|");

            console.set_cursor_pos(x, y + 1);
            console.draw_text("---");

            i += 1;
        }

        // Mark the selected pack
        let index = game_state.get_level_pack_index();
        if index > MAX_LEVEL_PACK_COUNT {
            return;
        }
        let x = (index % 24) * 3;
        let y = 1 + (index / 24) * 2;

        console.set_color(Color::Cyan, Color::Default);
        console.set_cursor_pos(x, y);
        console.draw_text("----");
        console.set_cursor_pos(x, y + 1);
        console.draw_text("|");
        console.set_cursor_pos(x + 3, y + 1);
        console.draw_text("|");
        console.set_cursor_pos(x, y + 2);
        console.draw_text("----");

        // Border for the summed best results
        let y = 4 + (count / 24) * 2;

        console.set_cursor_pos(0, y);
        console.set_color(Color::Cyan, Color::Default);
        console.draw_text(".-----------------------------------.");
        let mut i: usize = 1;
        while i < 4
            invariant
                y <= 4 + MAX_LEVEL_PACK_COUNT,
            decreases 4 - i,
        {
            console.set_cursor_pos(0, y + i);
            console.draw_text("|                                   |");
            i += 1;
        }
        console.set_cursor_pos(0, y + 4);
        console.draw_text("\'-----------------------------------\'");

        console.reset_color();
        console.set_cursor_pos(1, y + 1);
        console.draw_text("Selected level pack:             ");
        let number = u64_padded((index + 1) as u64, 2, true);
        console.draw_text(number.as_str());

        console.set_cursor_pos(1, y + 2);
        console.draw_text("Sum of best time   : ");
        match game_state.get_current_level_pack() {
            None => {},
            Some(pack) => {
                match pack.level_pack_best_time_sum() {
                    None => console.draw_text("X:XX:XX:XX.XXX"),
                    Some(best_time_sum) => {
                        let text = best_time_sum_text(best_time_sum);
                        console.draw_text(text.as_str());
                    },
                }
            },
        }

        console.set_cursor_pos(1, y + 3);
        console.draw_text("Sum of best moves  :        ");
        match game_state.get_current_level_pack() {
            None => {},
            Some(pack) => {
                match pack.level_pack_best_moves_sum() {
                    None => console.draw_text("XXXXXXX"),
                    Some(best_moves_sum) => {
                        let text = u64_padded(best_moves_sum as u64, 7, true);
                        console.draw_text(text.as_str());
                    },
                }
            },
        }
    }
}

impl Screen for ScreenSelectLevelPack {
    fn draw(&self, game_state: &GameState, console: &mut Console) {
        self.draw_screen(game_state, console);
    }

    fn on_key_pressed(&mut self, game_state: &mut GameState, key: i32) {
        self.handle_key(game_state, key);
    }

    fn on_mouse_pressed(&mut self, game_state: &mut GameState, column: usize, row: usize) {
        self.handle_mouse(game_state, column, row);
    }
}

/// The level selection screen of one pack.
pub struct ScreenSelectLevel {
    pub selected_level: usize,
}

impl ScreenSelectLevel {
    /// Starts with the first level selected.
    pub fn new() -> (r: Self)
        ensures
            r.selected_level == 0,
    {
        Self { selected_level: 0 }
    }

    /// Handles a key press: arrows move the selection on a 24-wide grid,
    /// enter starts the selected level if it is unlocked, escape returns to
    /// the pack selection, F1 opens the help pages.
    pub fn handle_key(&mut self, game_state: &mut GameState, key: i32)
        ensures
            ({
                let g = *old(game_state);
                let sel = old(self).selected_level as int;
                let pack_idx = g.current_level_pack_index as int;
                let have_pack = pack_idx < g.level_packs@.len();
                let count = if have_pack {
                    g.level_packs@[pack_idx].spec_levels().len() as int
                } else {
                    0
                };
                if key == KEY_ESC {
                    *final(game_state) == (GameState {
                        current_screen_id: ScreenId::SelectLevelPack,
                        should_call_on_set_screen: true,
                        ..g
                    }) && *final(self) == *old(self)
                } else if key == KEY_F1 {
                    *final(game_state) == (GameState { is_help: true, ..g }) && *final(self)
                        == *old(self)
                } else if key == KEY_LEFT {
                    *final(game_state) == g && final(self).selected_level == (if sel == 0 {
                        sel
                    } else {
                        sel - 1
                    })
                } else if key == KEY_UP {
                    *final(game_state) == g && final(self).selected_level == (if sel < 24 {
                        sel
                    } else {
                        sel - 24
                    })
                } else if key == KEY_RIGHT {
                    *final(game_state) == g && final(self).selected_level == (if sel + 1 >= count {
                        sel
                    } else {
                        sel + 1
                    })
                } else if key == KEY_DOWN {
                    *final(game_state) == g && final(self).selected_level == (if sel + 24
                        >= count {
                        sel
                    } else {
                        sel + 24
                    })
                } else if key == KEY_ENTER && have_pack && sel
                    <= g.level_packs@[pack_idx].spec_min_level_not_completed() {
                    *final(game_state) == (GameState {
                        current_level_index: old(self).selected_level,
                        current_screen_id: ScreenId::InGame,
                        should_call_on_set_screen: true,
                        ..g
                    }) && *final(self) == *old(self)
                } else {
                    *final(game_state) == g && *final(self) == *old(self)
                }
            }),
    {
        if key == KEY_ESC {
            game_state.set_screen(ScreenId::SelectLevelPack);

            return;
        }

        if key == KEY_F1 {
            game_state.open_help_page();

            return;
        }

        let count = match game_state.get_current_level_pack() {
            Some(pack) => pack.level_count(),
            None => 0,
        };

        if key == KEY_LEFT {
            if self.selected_level > 0 {
                self.selected_level = self.selected_level - 1;
            }
        } else if key == KEY_UP {
            if self.selected_level >= 24 {
                self.selected_level = self.selected_level - 24;
            }
        } else if key == KEY_RIGHT {
            if count > 0 && self.selected_level < count - 1 {
                self.selected_level = self.selected_level + 1;
            }
        } else if key == KEY_DOWN {
            if count >= 24 && self.selected_level < count - 24 {
                self.selected_level = self.selected_level + 24;
            }
        } else if key == KEY_ENTER {
            match game_state.get_current_level_pack() {
                Some(pack) => {
                    if self.selected_level <= pack.min_level_not_completed() {
                        game_state.set_level_index(self.selected_level);
                        game_state.set_screen(ScreenId::InGame);
                    }
                },
                None => {},
            }
        }
    }

    /// Handles a click: a click on a level box selects that level and tries
    /// to start it.
    pub fn handle_mouse(&mut self, game_state: &mut GameState, column: usize, row: usize)
        ensures
            ({
                let g = *old(game_state);
                let pack_idx = g.current_level_pack_index as int;
                let have_pack = pack_idx < g.level_packs@.len();
                let count = if have_pack {
                    g.level_packs@[pack_idx].spec_levels().len() as int
                } else {
                    0
                };
                let idx = column as int / 3 + (row as int - 1) / 2 * 24;
                if row == 0 || idx >= count || idx > usize::MAX {
                    *final(game_state) == g && *final(self) == *old(self)
                } else if have_pack && idx
                    <= g.level_packs@[pack_idx].spec_min_level_not_completed() {
                    *final(game_state) == (GameState {
                        current_level_index: idx as usize,
                        current_screen_id: ScreenId::InGame,
                        should_call_on_set_screen: true,
                        ..g
                    }) && final(self).selected_level == idx
                } else {
                    *final(game_state) == g && final(self).selected_level == idx
                }
            }),
    {
        if row == 0 {
            return;
        }

        let base = match ((row - 1) / 2).checked_mul(24) {
            Some(b) => b,
            None => { return },
        };
        let level_index = match (column / 3).checked_add(base) {
            Some(i) => i,
            None => { return },
        };

        let count = match game_state.get_current_level_pack() {
            Some(pack) => pack.level_count(),
            None => 0,
        };

        if level_index < count {
            self.selected_level = level_index;
            self.handle_key(game_state, KEY_ENTER);
        }
    }

    /// Records the level selection screen: one numbered box per level —
    /// green for solved levels, yellow for the next one, red for locked ones
    /// — and the best results of the selected level below.
    pub fn draw_screen(&self, game_state: &GameState, console: &mut Console) {
        let pack = match game_state.get_current_level_pack() {
            Some(pack) => pack,
            None => { return },
        };

        console.reset_color();
        console.set_underline(true);
        console.draw_text("Select a level (Level pack \"");
        console.draw_text(pack.id());
        console.draw_text("\"):");
        console.set_underline(false);

        let level_count = pack.level_count();
        if level_count > crate::game::level::MAX_LEVEL_COUNT_PER_PACK || level_count == 0 {
            // More levels than the game ever loads would not fit any console.
            return;
        }

        // Top line of the first row of boxes
        console.set_cursor_pos(0, 1);
        console.draw_text("-");
        let max = if level_count / 24 > 0 {
            24
        } else {
            level_count % 24
        };
        let mut i: usize = 0;
        while i < max
            invariant
                max <= 24,
            decreases max - i,
        {
            let x = 1 + (i % 24) * 3;
            console.set_cursor_pos(x, 1);
            console.draw_text("---");
            i += 1;
        }

        let min_level_not_completed = pack.min_level_not_completed();

        let mut i: usize = 0;
        while i < level_count
            invariant
                level_count <= crate::game::level::MAX_LEVEL_COUNT_PER_PACK,
            decreases level_count - i,
        {
            let x = 1 + (i % 24) * 3;
            let y = 2 + (i / 24) * 2;

            if x == 1 {
                console.set_cursor_pos(x - 1, y);
                console.draw_text("|");

                console.set_cursor_pos(x - 1, y + 1);
                console.draw_text("-");
            }

            console.set_color(
                Color::Black,
                if i < min_level_not_completed {
                    Color::Green
                } else if i == min_level_not_completed {
                    Color::Yellow
                } else {
                    Color::Red
                },
            );
            console.set_cursor_pos(x, y);

            proof {
                assert(crate::text::pow10(1) == 10) by {
                    reveal_with_fuel(crate::text::pow10, 2);
                }
            }
            let number = number_to_string_leading_ascii(2, (i + 1) as u64, false);
            console.draw_text(number.as_str());

            console.reset_color();
            console.draw_text("|");

            console.set_cursor_pos(x, y + 1);
            console.draw_text("---");

            i += 1;
        }

        // Mark the selected level
        let selected_level = self.selected_level;
        if selected_level > crate::game::level::MAX_LEVEL_COUNT_PER_PACK {
            return;
        }
        let x = (selected_level % 24) * 3;
        let y = 1 + (selected_level / 24) * 2;

        console.set_color(Color::Cyan, Color::Default);
        console.set_cursor_pos(x, y);
        console.draw_text("----");
        console.set_cursor_pos(x, y + 1);
        console.draw_text("|");
        console.set_cursor_pos(x + 3, y + 1);
        console.draw_text("|");
        console.set_cursor_pos(x, y + 2);
        console.draw_text("----");

        // Border for the best results
        let y = 4 + ((level_count - 1) / 24) * 2;

        console.set_cursor_pos(0, y);
        console.set_color(Color::Cyan, Color::Default);
        console.draw_text(".-------------------------.");
        let mut i: usize = 1;
        while i < 4
            invariant
                y <= 4 + crate::game::level::MAX_LEVEL_COUNT_PER_PACK,
            decreases 4 - i,
        {
            console.set_cursor_pos(0, y + i);
            console.draw_text("|                         |");
            i += 1;
        }
        console.set_cursor_pos(0, y + 4);
        console.draw_text("\'-------------------------\'");

        console.reset_color();
        console.set_cursor_pos(1, y + 1);
        console.draw_text("Selected level:        ");
        proof {
            assert(crate::text::pow10(1) == 10) by {
                reveal_with_fuel(crate::text::pow10, 2);
            }
        }
        let number = number_to_string_leading_ascii(2, (selected_level + 1) as u64, true);
        console.draw_text(number.as_str());

        console.set_cursor_pos(1, y + 2);
        console.draw_text("Best time     : ");
        if selected_level < level_count {
            match pack.levels()[selected_level].best_time() {
                None => console.draw_text("XX:XX.XXX"),
                Some(best_time) => {
                    let text = best_time_text(best_time);
                    console.draw_text(text.as_str());
                },
            }
        }

        console.set_cursor_pos(1, y + 3);
        console.draw_text("Best moves    :      ");
        if selected_level < level_count {
            match pack.levels()[selected_level].best_moves() {
                None => console.draw_text("XXXX"),
                Some(best_moves) => {
                    let text = u64_padded(best_moves as u64, 4, true);
                    console.draw_text(text.as_str());
                },
            }
        }
    }
}

impl Screen for ScreenSelectLevel {
    fn draw(&self, game_state: &GameState, console: &mut Console) {
        self.draw_screen(game_state, console);
    }

    fn on_key_pressed(&mut self, game_state: &mut GameState, key: i32) {
        self.handle_key(game_state, key);
    }

    fn on_mouse_pressed(&mut self, game_state: &mut GameState, column: usize, row: usize) {
        self.handle_mouse(game_state, column, row);
    }

    fn on_set_screen(&mut self, game_state: &mut GameState) {
        self.selected_level = game_state.get_level_index();
    }
}

/// The screen on which a level is played.
pub struct ScreenInGame {
    /// When the pause started, in game-clock milliseconds.
    pub time_start_in_menu: Option<u64>,
    /// When the first move of this attempt was made, in game-clock
    /// milliseconds.
    pub time_start: Option<u64>,
    pub time_millis: u32,
    pub time_sec: u32,
    pub time_min: u32,

    pub moves: u32,
    pub old_moves: u32,

    pub player_pos: (usize, usize),
    pub old_player_pos: (usize, usize),

    pub level_now: Option<Level>,
    pub level_now_last_step: Option<Level>,

    pub continue_flag: bool,
    pub continue_level_add_flag: bool,
    pub game_over_flag: bool,
}

/// Whether `(x, y)` comes before `(px, py)` in the column-major scan that
/// looks for the player.
pub open spec fn scanned_before(x: int, y: int, px: int, py: int) -> bool {
    x < px || (x == px && y < py)
}

/// The play screen after its clock resumes at game time `now`: while an
/// attempt and a pause are both running, the attempt's start moves forward by
/// the pause's span (saturating), so the shown time excludes the pause.
pub open spec fn clock_resumed(s: ScreenInGame, now: u64) -> ScreenInGame {
    if s.game_over_flag || s.continue_flag || s.time_start is None || s.time_start_in_menu is None {
        s
    } else {
        let paused_at = s.time_start_in_menu->0;
        let diff = if now >= paused_at {
            now - paused_at
        } else {
            0
        };
        let started = s.time_start->0;
        let moved = if started + diff <= u64::MAX {
            started + diff
        } else {
            u64::MAX as int
        };
        ScreenInGame { time_start_in_menu: None, time_start: Some(moved as u64), ..s }
    }
}

impl ScreenInGame {
    /// A fresh play screen with no level loaded.
    pub fn new() -> (r: Self)
        ensures
            r.time_start_in_menu is None,
            r.time_start is None,
            r.time_millis == 0,
            r.time_sec == 0,
            r.time_min == 0,
            r.moves == 0,
            r.old_moves == 0,
            r.player_pos == (0usize, 0usize),
            r.old_player_pos == (0usize, 0usize),
            r.level_now is None,
            r.level_now_last_step is None,
            r.continue_flag == false,
            r.continue_level_add_flag == false,
            r.game_over_flag == false,
    {
        Self {
            time_start_in_menu: None,
            time_start: None,
            time_millis: 0,
            time_sec: 0,
            time_min: 0,

            moves: 0,
            old_moves: 0,

            player_pos: (0, 0),
            old_player_pos: (0, 0),

            level_now: None,
            level_now_last_step: None,

            continue_flag: false,
            continue_level_add_flag: false,
            game_over_flag: false,
        }
    }

    /// Starts an attempt at `level`: clock and move counter reset, the level
    /// is copied into play, and the player position is taken from the first
    /// `Player` tile in column-major scan order.
    pub fn start_level(&mut self, level: &Level)
        ensures
            final(self).time_start is None,
            final(self).time_millis == 0,
            final(self).time_sec == 0,
            final(self).time_min == 0,
            final(self).moves == 0,
            final(self).old_moves == 0,
            final(self).level_now matches Some(l) && l.spec_width() == level.spec_width()
                && l.spec_height() == level.spec_height() && l.grid() == level.grid(),
            final(self).level_now_last_step matches Some(l) && l.spec_width()
                == level.spec_width() && l.spec_height() == level.spec_height() && l.grid()
                == level.grid(),
            final(self).time_start_in_menu == old(self).time_start_in_menu,
            final(self).continue_flag == old(self).continue_flag,
            final(self).continue_level_add_flag == old(self).continue_level_add_flag,
            final(self).game_over_flag == old(self).game_over_flag,
            ({
                let found = exists|x: int, y: int|
                    level.in_bounds(x, y) && #[trigger] level.at(x, y) == Tile::Player;
                if level.wf() && found {
                    let px = final(self).player_pos.0 as int;
                    let py = final(self).player_pos.1 as int;
                    &&& level.in_bounds(px, py)
                    &&& level.at(px, py) == Tile::Player
                    &&& forall|x: int, y: int|
                        level.in_bounds(x, y) && scanned_before(x, y, px, py)
                            ==> #[trigger] level.at(x, y) != Tile::Player
                    &&& final(self).old_player_pos == final(self).player_pos
                } else {
                    final(self).player_pos == old(self).player_pos && final(self).old_player_pos
                        == old(self).old_player_pos
                }
            }),
    {
        self.time_start = None;
        self.time_millis = 0;
        self.time_sec = 0;
        self.time_min = 0;

        self.old_moves = 0;
        self.moves = 0;

        self.level_now = Some(level.clone());
        self.level_now_last_step = Some(level.clone());

        if !level.check_wf() {
            return;
        }

        let width = level.width();
        let height = level.height();

        let mut i: usize = 0;
        while i < width
            invariant
                level.wf(),
                width == level.spec_width(),
                height == level.spec_height(),
                i <= width,
                forall|x: int, y: int|
                    level.in_bounds(x, y) && x < i ==> #[trigger] level.at(x, y) != Tile::Player,
                self.time_start is None,
                self.time_millis == 0,
                self.time_sec == 0,
                self.time_min == 0,
                self.moves == 0,
                self.old_moves == 0,
                self.level_now matches Some(l) && l.spec_width() == level.spec_width()
                    && l.spec_height() == level.spec_height() && l.grid() == level.grid(),
                self.level_now_last_step matches Some(l) && l.spec_width() == level.spec_width()
                    && l.spec_height() == level.spec_height() && l.grid() == level.grid(),
                self.time_start_in_menu == old(self).time_start_in_menu,
                self.continue_flag == old(self).continue_flag,
                self.continue_level_add_flag == old(self).continue_level_add_flag,
                self.game_over_flag == old(self).game_over_flag,
                self.player_pos == old(self).player_pos,
                self.old_player_pos == old(self).old_player_pos,
            decreases width - i,
        {
            let mut j: usize = 0;
            while j < height
                invariant
                    level.wf(),
                    width == level.spec_width(),
                    height == level.spec_height(),
                    i < width,
                    j <= height,
                    forall|x: int, y: int|
                        level.in_bounds(x, y) && x < i ==> #[trigger] level.at(x, y)
                            != Tile::Player,
                    forall|y: int| 0 <= y < j ==> #[trigger] level.at(i as int, y) != Tile::Player,
                    self.time_start is None,
                    self.time_millis == 0,
                    self.time_sec == 0,
                    self.time_min == 0,
                    self.moves == 0,
                    self.old_moves == 0,
                    self.level_now matches Some(l) && l.spec_width() == level.spec_width()
                    && l.spec_height() == level.spec_height() && l.grid() == level.grid(),
                    self.level_now_last_step matches Some(l) && l.spec_width() == level.spec_width()
                    && l.spec_height() == level.spec_height() && l.grid() == level.grid(),
                    self.time_start_in_menu == old(self).time_start_in_menu,
                    self.continue_flag == old(self).continue_flag,
                    self.continue_level_add_flag == old(self).continue_level_add_flag,
                    self.game_over_flag == old(self).game_over_flag,
                    self.player_pos == old(self).player_pos,
                    self.old_player_pos == old(self).old_player_pos,
                decreases height - j,
            {
                match level.get_tile(i, j) {
                    Some(tile) => {
                        if *tile == Tile::Player {
                            self.player_pos = (i, j);
                            self.old_player_pos = (i, j);

                            return;
                        }
                    },
                    None => {},
                }
                j += 1;
            }
            i += 1;
        }
    }

    /// Brings the shown clock up to the game time in
    /// [`GameState::now_ms`]; a clock that would run backwards shows zero.
    pub fn update_time(&mut self, game_state: &mut GameState)
        ensures
            *final(game_state) == *old(game_state),
            ({
                let g = *old(game_state);
                if g.dialog is Some || old(self).game_over_flag || old(self).continue_flag {
                    *final(self) == *old(self)
                } else {
                    match old(self).time_start {
                        Some(t0) => {
                            let diff = if g.now_ms >= t0 {
                                g.now_ms - t0
                            } else {
                                0
                            };
                            &&& final(self).time_millis == diff % 1000
                            &&& final(self).time_sec == (diff / 1000) % 60
                            &&& final(self).time_min == ((diff / 1000) / 60) % 0x100000000
                            &&& *final(self) == (ScreenInGame {
                                time_millis: final(self).time_millis,
                                time_sec: final(self).time_sec,
                                time_min: final(self).time_min,
                                ..*old(self)
                            })
                        },
                        None => *final(self) == *old(self),
                    }
                }
            }),
    {
        if game_state.is_dialog_opened() || self.game_over_flag || self.continue_flag {
            return;
        }

        match self.time_start {
            Some(time_start) => {
                let now = game_state.now_ms;
                let diff = if now >= time_start {
                    now - time_start
                } else {
                    0
                };

                self.time_millis = (diff % 1000) as u32;
                self.time_sec = ((diff / 1000) % 60) as u32;
                self.time_min = ((diff / 1000 / 60) % 0x100000000) as u32;
            },
            None => {},
        }
    }

    /// Resumes the clock after a pause: the pause's span moves the start of
    /// the attempt forward so the shown time excludes it.
    pub fn resume_clock(&mut self, game_state: &mut GameState)
        ensures
            *final(game_state) == *old(game_state),
            *final(self) == clock_resumed(*old(self), old(game_state).now_ms),
    {
        if self.game_over_flag || self.continue_flag {
            return;
        }
        let time_start = match self.time_start {
            Some(t) => t,
            None => { return },
        };
        let paused_at = match self.time_start_in_menu {
            Some(t) => t,
            None => { return },
        };

        let now = game_state.now_ms;
        let diff = if now >= paused_at {
            now - paused_at
        } else {
            0
        };

        self.time_start_in_menu = None;
        if time_start <= u64::MAX - diff {
            self.time_start = Some(time_start + diff);
        } else {
            self.time_start = Some(u64::MAX);
        }
    }

    /// Handles a key press while playing.
    ///
    /// `y`/`n` answer the back-to-selection dialog; escape opens it (or
    /// leaves a finished run); F1 opens the help pages; after a completed
    /// level, enter goes to the next level and `r` replays it; while
    /// playing, `z` steps back to the state before the last move, `r`
    /// restarts the level, and the arrow keys hand the move to
    /// [`attempt_move`], counting moves, remembering the undo state, and
    /// recording new best results when the level is won.
    pub fn handle_key(&mut self, game_state: &mut GameState, key: i32)
        ensures
            ({
                let g = *old(game_state);
                if g.dialog is Some {
                    if key == KEY_YES {
                        &&& *final(game_state) == (GameState {
                            dialog: None,
                            current_screen_id: ScreenId::SelectLevel,
                            should_call_on_set_screen: true,
                            ..g
                        })
                        &&& *final(self) == (ScreenInGame {
                            continue_flag: false,
                            continue_level_add_flag: false,
                            game_over_flag: false,
                            ..*old(self)
                        })
                    } else if key == KEY_NO {
                        &&& *final(game_state) == (GameState { dialog: None, ..g })
                        &&& *final(self) == clock_resumed(*old(self), g.now_ms)
                    } else {
                        *final(game_state) == g && *final(self) == *old(self)
                    }
                } else if key == KEY_ESC {
                    if old(self).game_over_flag {
                        &&& *final(game_state) == (GameState {
                            current_screen_id: ScreenId::SelectLevel,
                            should_call_on_set_screen: true,
                            ..g
                        })
                        &&& *final(self) == (ScreenInGame {
                            continue_flag: false,
                            continue_level_add_flag: false,
                            game_over_flag: false,
                            ..*old(self)
                        })
                    } else {
                        &&& final(game_state).dialog matches Some(d) && d.spec_message()
                            == "Back to level selection?"@
                        &&& *final(game_state) == (GameState {
                            dialog: final(game_state).dialog,
                            ..g
                        })
                        &&& *final(self) == (ScreenInGame {
                            time_start_in_menu: Some(g.now_ms),
                            ..*old(self)
                        })
                    }
                } else if key == KEY_F1 {
                    &&& *final(game_state) == (GameState { is_help: true, ..g })
                    &&& *final(self) == (ScreenInGame {
                        time_start_in_menu: Some(g.now_ms),
                        ..*old(self)
                    })
                } else {
                    // Level stepping, undo, reset and movement leave the
                    // surrounding navigation state alone.
                    &&& final(game_state).current_screen_id == g.current_screen_id
                    &&& final(game_state).should_exit == g.should_exit
                    &&& final(game_state).is_help == g.is_help
                    &&& final(game_state).dialog is None
                    &&& final(game_state).current_level_pack_index
                        == g.current_level_pack_index
                    &&& final(game_state).editor_state == g.editor_state
                    &&& final(game_state).found_secret_main_level_pack
                        == g.found_secret_main_level_pack
                    &&& final(game_state).now_ms == g.now_ms
                }
            }),
    {
        if game_state.is_dialog_opened() {
            if key == KEY_YES {
                game_state.close_dialog();

                self.continue_flag = false;
                self.continue_level_add_flag = false;
                self.game_over_flag = false;

                game_state.set_screen(ScreenId::SelectLevel);
            } else if key == KEY_NO {
                game_state.close_dialog();

                self.resume_clock(game_state);
            }

            return;
        }

        if key == KEY_ESC {
            if self.game_over_flag {
                self.continue_flag = false;
                self.continue_level_add_flag = false;
                self.game_over_flag = false;

                game_state.set_screen(ScreenId::SelectLevel);

                return;
            }

            self.time_start_in_menu = Some(game_state.now_ms);

            proof {
                reveal_strlit("Back to level selection?");
            }
            game_state.open_dialog(DialogYesNo::new(String::from_str("Back to level selection?")));

            return;
        }

        if key == KEY_F1 {
            self.time_start_in_menu = Some(game_state.now_ms);

            game_state.open_help_page();

            return;
        }

        let current_level_index = game_state.get_level_index();

        // Level end
        if self.continue_flag {
            if self.continue_level_add_flag {
                match game_state.get_current_level_pack_mut() {
                    Some(level_pack) => {
                        if current_level_index >= level_pack.min_level_not_completed()
                            && current_level_index < usize::MAX {
                            level_pack.set_min_level_not_completed(current_level_index + 1);
                        }
                    },
                    None => { return },
                }

                self.continue_level_add_flag = false;
            }

            let level_count = match game_state.get_current_level_pack() {
                Some(level_pack) => level_pack.level_count(),
                None => { return },
            };

            if key == KEY_ENTER {
                self.continue_flag = false;

                // All levels completed
                if current_level_index >= usize::MAX || current_level_index + 1 == level_count {
                    self.game_over_flag = true;

                    return;
                }

                game_state.set_level_index(current_level_index + 1);
                self.start_current_level(game_state);
            } else if key == KEY_RESET {
                self.continue_flag = false;

                self.start_current_level(game_state);
            }

            return;
        }

        // One step back
        if key == KEY_STEP_BACK {
            core::mem::swap(&mut self.level_now, &mut self.level_now_last_step);

            // Reset move count
            core::mem::swap(&mut self.moves, &mut self.old_moves);

            // Reset player pos
            core::mem::swap(&mut self.player_pos, &mut self.old_player_pos);
        }

        // Reset
        if key == KEY_RESET {
            self.start_current_level(game_state);
        }

        if key >= KEY_LEFT && key <= KEY_DOWN {
            self.handle_move_key(game_state, key);
        }
    }

    /// Starts (or restarts) the level the game state currently points at.
    fn start_current_level(&mut self, game_state: &mut GameState)
        ensures
            *final(game_state) == *old(game_state),
    {
        let current_level_index = game_state.get_level_index();
        let level = match game_state.get_current_level_pack() {
            Some(level_pack) => {
                let levels = level_pack.levels();
                if current_level_index < levels.len() {
                    levels[current_level_index].level()
                } else {
                    return ;
                }
            },
            None => { return },
        };

        self.start_level(level);
    }

    /// Records the play screen: pack, level, move and time counters on the
    /// top line, then the level grid, then the hint text of the tutorial
    /// levels.
    pub fn draw_screen(&self, game_state: &GameState, console: &mut Console) {
        console.reset_color();
        console.draw_text("Pack: ");
        let pack_index = game_state.get_level_pack_index();
        if pack_index < MAX_LEVEL_PACK_COUNT {
            let number = u64_padded((pack_index + 1) as u64, 2, true);
            console.draw_text(number.as_str());
        }

        console.set_cursor_pos((CONSOLE_MIN_WIDTH - 9) / 4, 0);
        console.draw_text("Level: ");
        let level_index = game_state.get_level_index();
        if level_index < crate::game::level::MAX_LEVEL_COUNT_PER_PACK {
            proof {
                assert(crate::text::pow10(1) == 10) by {
                    reveal_with_fuel(crate::text::pow10, 2);
                }
            }
            let number = number_to_string_leading_ascii(2, (level_index + 1) as u64, true);
            console.draw_text(number.as_str());
        }

        console.set_cursor_pos((CONSOLE_MIN_WIDTH - 11) * 3 / 4, 0);
        console.draw_text("Moves: ");
        let number = u64_padded(self.moves as u64, 4, true);
        console.draw_text(number.as_str());

        console.set_cursor_pos(CONSOLE_MIN_WIDTH - 15, 0);
        console.draw_text("Time: ");
        let number = u64_padded(self.time_min as u64, 2, true);
        console.draw_text(number.as_str());
        console.draw_text(":");
        let number = u64_padded(self.time_sec as u64, 2, true);
        console.draw_text(number.as_str());
        console.draw_text(".");
        let number = u64_padded(self.time_millis as u64, 3, true);
        console.draw_text(number.as_str());

        if self.continue_flag {
            console.set_cursor_pos((CONSOLE_MIN_WIDTH - 16) / 2, 0);
            console.draw_text("Level completed!");
        }

        if self.game_over_flag {
            console.set_cursor_pos((CONSOLE_MIN_WIDTH - 13) / 2, 0);
            console.draw_text("You have won!");
        }

        match &self.level_now {
            Some(level) => {
                if level.check_wf() && level.width() <= CONSOLE_MIN_WIDTH && level.height()
                    < CONSOLE_MIN_HEIGHT {
                    let x_offset = (CONSOLE_MIN_WIDTH - level.width()) / 2;

                    level.draw(console, x_offset, 1, game_state.is_player_background());

                    self.draw_tutorial_level_text(game_state, console);
                }
            },
            None => {},
        }
    }

    /// Records the hint line shown under the built-in tutorial levels and the
    /// key levels of the built-in special pack.
    fn draw_tutorial_level_text(&self, game_state: &GameState, console: &mut Console) {
        if game_state.get_level_pack_index() == 0 {
            // Tutorial pack
            console.reset_color();
            let level_index = game_state.get_level_index();
            if level_index == 0 {
                if self.continue_flag {
                    console.set_cursor_pos(18, 8);
                    console.draw_text("Press ");

                    console.set_color(Color::Red, Color::Default);
                    console.draw_text("ENTER");

                    console.reset_color();
                    console.draw_text(" to go to the next level...");
                } else {
                    console.set_cursor_pos(17, 8);
                    console.draw_text("Use the arrow keys (< ^ > v) to move...");
                }
            } else if level_index == 1 {
                console.set_cursor_pos(16, 8);
                console.draw_text("Boxes (");

                console.set_color(Color::LightCyan, Color::Default);
                console.draw_text("@");

                console.reset_color();
                console.draw_text(") must be placed on ");

                console.set_color(Color::Red, Color::Default);
                console.draw_text("all");

                console.reset_color();
                console.draw_text(" goals (");

                console.set_color(Color::Red, Color::Default);
                console.draw_text("x");

                console.reset_color();
                console.draw_text(")");
            } else if level_index == 2 {
                console.set_cursor_pos(14, 8);
                console.draw_text("Some boxes (");

                console.set_color(Color::LightPink, Color::Default);
                console.draw_text("@");

                console.reset_color();
                console.draw_text(") might already be in a goal (");

                console.set_color(Color::Red, Color::Default);
                console.draw_text("x");

                console.reset_color();
                console.draw_text(")");
            } else if level_index == 3 {
                console.set_cursor_pos(14, 8);
                console.draw_text("Not all boxes (");

                console.set_color(Color::LightCyan, Color::Default);
                console.draw_text("@");

                console.reset_color();
                console.draw_text(") must be in a goal (");

                console.set_color(Color::Red, Color::Default);
                console.draw_text("x");

                console.reset_color();
                console.draw_text(") to win");
            } else if level_index == 4 {
                console.set_cursor_pos(5, 8);
                console.draw_text("One-way doors (");

                console.set_color(Color::Blue, Color::Default);
                console.draw_text("< ^ > v");

                console.reset_color();
                console.draw_text(") can only be entered from the opened side");
            } else if level_index == 5 {
                if self.game_over_flag {
                    console.set_cursor_pos(12, 8);
                    console.draw_text("Press ");

                    console.set_color(Color::Red, Color::Default);
                    console.draw_text("ESC");

                    console.reset_color();
                    console.draw_text(" to go back to the level selection screen");
                } else {
                    console.set_cursor_pos(8, 8);
                    console.draw_text("Boxes (");

                    console.set_color(Color::LightCyan, Color::Default);
                    console.draw_text("@");

                    console.reset_color();
                    console.draw_text(") can not be moved through one-way doors (");

                    console.set_color(Color::Blue, Color::Default);
                    console.draw_text("< ^ > v");

                    console.reset_color();
                    console.draw_text(")");
                }
            }
        } else if game_state.get_level_pack_index() == 2 {
            // Built-in special pack
            console.reset_color();
            let level_index = game_state.get_level_index();
            if level_index == 0 {
                console.set_cursor_pos(18, 8);
                console.draw_text("Keys (");

                console.set_color(Color::LightCyan, Color::Default);
                console.draw_text("*");

                console.reset_color();
                console.draw_text(") can be used to open doors (");

                console.set_color(Color::Red, Color::Default);
                console.draw_text("=");

                console.reset_color();
                console.draw_text(")");
            } else if level_index == 1 {
                console.set_cursor_pos(19, 8);
                console.draw_text("Every key (");

                console.set_color(Color::LightCyan, Color::Default);
                console.draw_text("*");

                console.reset_color();
                console.draw_text(") can open any door (");

                console.set_color(Color::Red, Color::Default);
                console.draw_text("=");

                console.reset_color();
                console.draw_text(")");
            } else if level_index == 2 {
                console.set_cursor_pos(21, 8);
                console.draw_text("Keys (");

                console.set_color(Color::LightPink, Color::Default);
                console.draw_text("*");

                console.reset_color();
                console.draw_text(") might be in a goal (");

                console.set_color(Color::Red, Color::Default);
                console.draw_text("x");

                console.reset_color();
                console.draw_text(")");
            }
        }
    }

    /// Resolves one arrow-key move: checks that the level in play and the
    /// as-loaded level agree, hands the step to [`attempt_move`], and on
    /// success counts the move, remembers the undo state, and on a win
    /// records the results and asks for a save.
    fn handle_move_key(&mut self, game_state: &mut GameState, key: i32)
        requires
            KEY_LEFT <= key <= KEY_DOWN,
        ensures
            final(game_state).current_screen_id == old(game_state).current_screen_id,
            final(game_state).should_exit == old(game_state).should_exit,
            final(game_state).is_help == old(game_state).is_help,
            final(game_state).dialog == old(game_state).dialog,
            final(game_state).current_level_pack_index == old(
                game_state,
            ).current_level_pack_index,
            final(game_state).current_level_index == old(game_state).current_level_index,
            final(game_state).editor_state == old(game_state).editor_state,
            final(game_state).found_secret_main_level_pack == old(
                game_state,
            ).found_secret_main_level_pack,
            final(game_state).now_ms == old(game_state).now_ms,
            ({
                let g = *old(game_state);
                let pi = g.current_level_pack_index as int;
                let li = g.current_level_index as int;
                let d = if key == KEY_LEFT {
                    Direction::Left
                } else if key == KEY_UP {
                    Direction::Up
                } else if key == KEY_RIGHT {
                    Direction::Right
                } else {
                    Direction::Down
                };
                let px = old(self).player_pos.0 as int;
                let py = old(self).player_pos.1 as int;
                let guards = {
                    &&& pi < g.level_packs@.len()
                    &&& li < g.level_packs@[pi].spec_levels().len()
                    &&& g.level_packs@[pi].spec_levels()[li].spec_level().wf()
                    &&& old(self).level_now is Some
                    &&& old(self).level_now->0.wf()
                    &&& old(self).level_now->0.same_dims(
                        &g.level_packs@[pi].spec_levels()[li].spec_level(),
                    )
                    &&& old(self).level_now->0.in_bounds(px, py)
                    &&& old(self).level_now->0.at(px, py) == Tile::Player
                };
                if !guards {
                    *final(self) == *old(self) && *final(game_state) == *old(game_state)
                } else {
                    let orig = g.level_packs@[pi].spec_levels()[li].spec_level();
                    let lvl = old(self).level_now->0;
                    let started = if old(self).time_start is Some {
                        old(self).time_start->0
                    } else {
                        g.now_ms
                    };
                    let bumped = if old(self).moves < u32::MAX {
                        (old(self).moves + 1) as u32
                    } else {
                        old(self).moves
                    };
                    &&& final(self).time_start == Some(started)
                    &&& final(self).level_now matches Some(l2) && l2.wf() && l2.same_dims(&lvl)
                    &&& (can_step(&lvl, px, py, d) ==> {
                        &&& final(self).level_now->0.grid() == after_plain_step(
                            &lvl,
                            &orig,
                            px,
                            py,
                            d,
                        )
                        &&& final(self).player_pos == (
                            (px + dir_dx(d)) as usize,
                            (py + dir_dy(d)) as usize,
                        )
                        &&& final(self).moves == bumped
                        &&& final(self).old_moves == old(self).moves
                        &&& final(self).old_player_pos == old(self).player_pos
                        &&& final(self).level_now_last_step matches Some(lb) && lb.grid()
                            == lvl.grid()
                        &&& *final(game_state) == g
                    })
                    &&& (can_push(&lvl, px, py, d) ==> {
                        &&& final(self).level_now->0.grid() == after_push_step(
                            &lvl,
                            &orig,
                            px,
                            py,
                            d,
                        )
                        &&& final(self).player_pos == (
                            (px + dir_dx(d)) as usize,
                            (py + dir_dy(d)) as usize,
                        )
                        &&& final(self).moves == bumped
                        &&& final(self).old_moves == old(self).moves
                        &&& final(self).old_player_pos == old(self).player_pos
                        &&& final(self).level_now_last_step matches Some(lb) && lb.grid()
                            == lvl.grid()
                        &&& (push_wins(&lvl, &orig, px, py, d) ==> {
                            &&& final(self).continue_flag
                            &&& final(self).continue_level_add_flag
                            &&& final(game_state).save_requested
                            &&& final(game_state).level_packs@.len() == g.level_packs@.len()
                            &&& (forall|i: int|
                                0 <= i < g.level_packs@.len() && i != pi
                                    ==> final(game_state).level_packs@[i] == g.level_packs@[i])
                        })
                        &&& (!push_wins(&lvl, &orig, px, py, d) ==> *final(game_state) == g)
                    })
                    &&& (!can_step(&lvl, px, py, d) && !can_push(&lvl, px, py, d) ==> {
                        &&& final(self).level_now->0.grid() == lvl.grid()
                        &&& final(self).player_pos == old(self).player_pos
                        &&& final(self).moves == old(self).moves
                        &&& *final(game_state) == g
                    })
                }
            }),
    {
        let current_level_index = game_state.get_level_index();

        // The as-loaded level of this attempt
        let original = match game_state.get_current_level_pack() {
            Some(level_pack) => {
                let levels = level_pack.levels();
                if current_level_index < levels.len() {
                    levels[current_level_index].level()
                } else {
                    return ;
                }
            },
            None => { return },
        };

        if !original.check_wf() {
            return;
        }

        let mut level_taken: Option<Level> = None;
        core::mem::swap(&mut self.level_now, &mut level_taken);
        let mut level = match level_taken {
            Some(level) => level,
            None => { return },
        };

        // The grids must agree for the move to be resolvable.
        if !level.check_wf() || level.width() != original.width() || level.height()
            != original.height() {
            self.level_now = Some(level);
            return;
        }

        let (px, py) = self.player_pos;
        if px >= level.width() || py >= level.height() {
            self.level_now = Some(level);
            return;
        }
        let is_player = match level.get_tile(px, py) {
            Some(tile) => *tile == Tile::Player,
            None => false,
        };
        if !is_player {
            self.level_now = Some(level);
            return;
        }

        let level_now_before_move = level.clone();

        if self.time_start.is_none() {
            self.time_start = Some(game_state.now_ms);
        }

        let direction = if key == KEY_LEFT {
            Direction::Left
        } else if key == KEY_UP {
            Direction::Up
        } else if key == KEY_RIGHT {
            Direction::Right
        } else {
            Direction::Down
        };

        let outcome = attempt_move(&mut level, original, (px, py), direction);

        let moved = match outcome {
            MoveOutcome::Blocked => false,
            _ => true,
        };

        // On every accepted move the player follows the step's direction.
        if moved {
            match level.step_target(px, py, direction.delta_x(), direction.delta_y()) {
                Some(new_pos) => self.player_pos = new_pos,
                None => {},
            }
        }

        self.level_now = Some(level);

        // Remember the pre-move state for the one-step-back key.
        if moved {
            self.old_moves = self.moves;
            if self.moves < u32::MAX {
                self.moves = self.moves + 1;
            }

            self.old_player_pos = (px, py);
            self.level_now_last_step = Some(level_now_before_move);
        }

        let has_won = match outcome {
            MoveOutcome::Won => true,
            _ => false,
        };

        if has_won {
            self.continue_flag = true;
            self.continue_level_add_flag = true;

            // Update best scores
            let time = self.time_millis as u64 + 1000 * (self.time_sec as u64) + 60000 * (
            self.time_min as u64);
            let moves_made = self.moves;

            match game_state.get_current_level_pack_mut() {
                Some(level_pack) => {
                    level_pack.update_stats(current_level_index, time, moves_made);
                },
                None => {},
            }

            game_state.save_requested = true;
        }
    }
}


impl Screen for ScreenInGame {
    fn draw(&self, game_state: &GameState, console: &mut Console) {
        self.draw_screen(game_state, console);
    }

    fn update(&mut self, game_state: &mut GameState) {
        self.update_time(game_state);
    }

    fn on_key_pressed(&mut self, game_state: &mut GameState, key: i32) {
        self.handle_key(game_state, key);
    }

    fn on_continue(&mut self, game_state: &mut GameState) {
        self.resume_clock(game_state);
    }

    fn on_set_screen(&mut self, game_state: &mut GameState) {
        self.start_current_level(game_state);
    }
}

} // verus!