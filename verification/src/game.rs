//! Game state shared by all screens.

use vstd::prelude::*;
use vstd::string::StringExecFns;
use crate::game::level::{Level, LevelPack, LevelWithStats};
use crate::game::screen::dialog::DialogYesNo;
use crate::game::screen::ScreenId;

pub mod help_page;
pub mod level;
pub mod resolver;
pub mod screen;

verus! {

/// Raised when the game cannot be brought up or kept running.
#[derive(Debug)]
pub struct GameError {
    message: String,
}

impl GameError {
    /// The description carried by the error.
    pub closed spec fn spec_message(&self) -> Seq<char> {
        self.message@
    }

    /// Wraps a description.
    pub fn new(message: &str) -> (r: Self)
        ensures
            r.spec_message() == message@,
    {
        GameError { message: String::from_str(message) }
    }

    /// The description carried by the error.
    pub fn message(&self) -> (m: &str)
        ensures
            m@ == self.spec_message(),
    {
        self.message.as_str()
    }
}

/// Selection state of the level-pack editor.
pub struct EditorState {
    pub level_packs: Vec<LevelPack>,
    pub selected_level_pack_index: usize,
    pub selected_level_index: usize,
}

impl EditorState {
    /// Starts with the given packs and nothing selected.
    pub fn new(level_packs: Vec<LevelPack>) -> (r: Self)
        ensures
            r.level_packs@ == level_packs@,
            r.selected_level_pack_index == 0,
            r.selected_level_index == 0,
    {
        Self { level_packs, selected_level_pack_index: 0, selected_level_index: 0 }
    }

    /// Number of packs available to the editor.
    pub fn get_level_pack_count(&self) -> (r: usize)
        ensures
            r == self.level_packs@.len(),
    {
        self.level_packs.len()
    }

    /// Index of the selected pack.
    pub fn get_level_pack_index(&self) -> (r: usize)
        ensures
            r == self.selected_level_pack_index,
    {
        self.selected_level_pack_index
    }

    /// The selected pack, while the selection is in range.
    pub fn get_current_level_pack(&self) -> (r: Option<&LevelPack>)
        ensures
            match r {
                Some(p) => self.selected_level_pack_index < self.level_packs@.len() && *p
                    == self.level_packs@[self.selected_level_pack_index as int],
                None => self.selected_level_pack_index >= self.level_packs@.len(),
            },
    {
        if self.selected_level_pack_index < self.level_packs.len() {
            Some(&self.level_packs[self.selected_level_pack_index])
        } else {
            None
        }
    }

    /// The selected pack for editing, while the selection is in range.
    pub fn get_current_level_pack_mut(&mut self) -> (r: Option<&mut LevelPack>)
        ensures
            old(self).selected_level_pack_index < old(self).level_packs@.len() ==> r.is_some()
                && *r.unwrap() == old(self).level_packs@[old(self).selected_level_pack_index as int]
                && final(self).level_packs@ == old(self).level_packs@.update(
                old(self).selected_level_pack_index as int,
                *final(r.unwrap()),
            ) && final(self).selected_level_pack_index == old(self).selected_level_pack_index
                && final(self).selected_level_index == old(self).selected_level_index,
            old(self).selected_level_pack_index >= old(self).level_packs@.len() ==> r.is_none()
                && *final(self) == *old(self),
    {
        if self.selected_level_pack_index < self.level_packs.len() {
            Some(&mut self.level_packs[self.selected_level_pack_index])
        } else {
            None
        }
    }

    /// Selects a pack.
    pub fn set_level_pack_index(&mut self, level_pack_index: usize)
        ensures
            *final(self) == (EditorState {
                selected_level_pack_index: level_pack_index,
                ..*old(self)
            }),
    {
        self.selected_level_pack_index = level_pack_index;
    }

    /// Index of the selected level within the selected pack.
    pub fn get_level_index(&self) -> (r: usize)
        ensures
            r == self.selected_level_index,
    {
        self.selected_level_index
    }

    /// Selects a level within the selected pack.
    pub fn set_level_index(&mut self, level_index: usize)
        ensures
            *final(self) == (EditorState { selected_level_index: level_index, ..*old(self) }),
    {
        self.selected_level_index = level_index;
    }

    /// The selected level for editing, while both selections are in range.
    pub fn get_current_level_mut(&mut self) -> (r: Option<&mut Level>)
        ensures
            ({
                let pi = old(self).selected_level_pack_index as int;
                let li = old(self).selected_level_index as int;
                if pi < old(self).level_packs@.len() && li
                    < old(self).level_packs@[pi].spec_levels().len() {
                    let old_pack = old(self).level_packs@[pi];
                    &&& r.is_some()
                    &&& *r.unwrap() == old_pack.spec_levels()[li].spec_level()
                    &&& final(self).selected_level_pack_index == old(
                        self,
                    ).selected_level_pack_index
                    &&& final(self).selected_level_index == old(self).selected_level_index
                    &&& final(self).level_packs@.len() == old(self).level_packs@.len()
                    &&& (forall|i: int|
                        0 <= i < old(self).level_packs@.len() && i != pi
                            ==> final(self).level_packs@[i] == old(self).level_packs@[i])
                    &&& final(self).level_packs@[pi].spec_id() == old_pack.spec_id()
                    &&& final(self).level_packs@[pi].spec_path() == old_pack.spec_path()
                    &&& final(self).level_packs@[pi].spec_min_level_not_completed()
                        == old_pack.spec_min_level_not_completed()
                    &&& final(self).level_packs@[pi].spec_levels().len()
                        == old_pack.spec_levels().len()
                    &&& (forall|j: int|
                        0 <= j < old_pack.spec_levels().len() && j != li
                            ==> final(self).level_packs@[pi].spec_levels()[j]
                            == old_pack.spec_levels()[j])
                    &&& final(self).level_packs@[pi].spec_levels()[li].spec_level()
                        == *final(r.unwrap())
                    &&& final(self).level_packs@[pi].spec_levels()[li].spec_best_time()
                        == old_pack.spec_levels()[li].spec_best_time()
                    &&& final(self).level_packs@[pi].spec_levels()[li].spec_best_moves()
                        == old_pack.spec_levels()[li].spec_best_moves()
                } else if pi >= old(self).level_packs@.len() {
                    r.is_none() && *final(self) == *old(self)
                } else {
                    let old_pack = old(self).level_packs@[pi];
                    &&& r.is_none()
                    &&& final(self).selected_level_pack_index == old(
                        self,
                    ).selected_level_pack_index
                    &&& final(self).selected_level_index == old(self).selected_level_index
                    &&& final(self).level_packs@.len() == old(self).level_packs@.len()
                    &&& (forall|i: int|
                        0 <= i < old(self).level_packs@.len() && i != pi
                            ==> final(self).level_packs@[i] == old(self).level_packs@[i])
                    &&& final(self).level_packs@[pi].spec_id() == old_pack.spec_id()
                    &&& final(self).level_packs@[pi].spec_path() == old_pack.spec_path()
                    &&& final(self).level_packs@[pi].spec_min_level_not_completed()
                        == old_pack.spec_min_level_not_completed()
                    &&& final(self).level_packs@[pi].spec_best_time_sum()
                        == old_pack.spec_best_time_sum()
                    &&& final(self).level_packs@[pi].spec_best_moves_sum()
                        == old_pack.spec_best_moves_sum()
                    &&& final(self).level_packs@[pi].spec_levels() == old_pack.spec_levels()
                }
            }),
    {
        let pack_index = self.selected_level_pack_index;
        let level_index = self.selected_level_index;
        if pack_index >= self.level_packs.len() {
            return None;
        }
        let pack = &mut self.level_packs[pack_index];
        let levels = pack.levels_mut();
        if level_index >= levels.len() {
            return None;
        }
        Some(levels[level_index].level_mut())
    }

    /// The selected level, while both selections are in range.
    pub fn get_current_level(&self) -> (r: Option<&Level>)
        ensures
            match r {
                Some(l) => self.selected_level_pack_index < self.level_packs@.len()
                    && self.selected_level_index < self.level_packs@[self.selected_level_pack_index as int].spec_levels().len()
                    && *l == self.level_packs@[self.selected_level_pack_index as int].spec_levels()[self.selected_level_index as int].spec_level(),
                None => self.selected_level_pack_index >= self.level_packs@.len()
                    || self.selected_level_index >= self.level_packs@[self.selected_level_pack_index as int].spec_levels().len(),
            },
    {
        if self.selected_level_pack_index >= self.level_packs.len() {
            return None;
        }
        let pack = &self.level_packs[self.selected_level_pack_index];
        let levels = pack.levels();
        if self.selected_level_index >= levels.len() {
            return None;
        }
        Some(levels[self.selected_level_index].level())
    }
}

/// Everything the screens share: which screen shows, the packs and the
/// selection in them, help and dialog state, and the flashing player marker.
pub struct GameState {
    pub current_screen_id: ScreenId,
    pub should_call_on_set_screen: bool,

    pub is_help: bool,
    pub dialog: Option<DialogYesNo>,

    pub current_level_pack_index: usize,
    pub level_packs: Vec<LevelPack>,

    pub current_level_index: usize,

    pub is_player_background: bool,
    pub player_background_tmp: i32,

    pub found_secret_main_level_pack: bool,

    pub should_exit: bool,

    pub editor_state: EditorState,

    pub now_ms: u64,
    pub save_requested: bool,
}

impl GameState {
    /// Fresh state on the start menu, showing the given packs.
    pub fn new(level_packs: Vec<LevelPack>, editor_level_packs: Vec<LevelPack>) -> (r: Self)
        ensures
            r.current_screen_id == ScreenId::StartMenu,
            r.should_call_on_set_screen == false,
            r.is_help == false,
            r.dialog is None,
            r.current_level_pack_index == 0,
            r.level_packs@ == level_packs@,
            r.current_level_index == 0,
            r.is_player_background == false,
            r.player_background_tmp == 0,
            r.found_secret_main_level_pack == false,
            r.should_exit == false,
            r.editor_state.level_packs@ == editor_level_packs@,
            r.now_ms == 0,
            r.save_requested == false,
    {
        Self {
            current_screen_id: ScreenId::StartMenu,
            should_call_on_set_screen: false,
            is_help: false,
            dialog: None,
            current_level_pack_index: 0,
            level_packs,
            current_level_index: 0,
            is_player_background: false,
            player_background_tmp: 0,
            found_secret_main_level_pack: false,
            should_exit: false,
            editor_state: EditorState::new(editor_level_packs),
            now_ms: 0,
            save_requested: false,
        }
    }

    /// Switches to another screen; its `on_set_screen` hook runs before its
    /// next update.
    pub fn set_screen(&mut self, screen_id: ScreenId)
        ensures
            *final(self) == (GameState {
                current_screen_id: screen_id,
                should_call_on_set_screen: true,
                ..*old(self)
            }),
    {
        self.current_screen_id = screen_id;
        self.should_call_on_set_screen = true;
    }

    /// The packs in play order.
    pub fn level_packs(&self) -> (r: &Vec<LevelPack>)
        ensures
            r@ == self.level_packs@,
    {
        &self.level_packs
    }

    /// Number of packs.
    pub fn get_level_pack_count(&self) -> (r: usize)
        ensures
            r == self.level_packs@.len(),
    {
        self.level_packs.len()
    }

    /// Index of the pack in play.
    pub fn get_level_pack_index(&self) -> (r: usize)
        ensures
            r == self.current_level_pack_index,
    {
        self.current_level_pack_index
    }

    /// Chooses the pack in play.
    pub fn set_level_pack_index(&mut self, level_pack_index: usize)
        ensures
            *final(self) == (GameState {
                current_level_pack_index: level_pack_index,
                ..*old(self)
            }),
    {
        self.current_level_pack_index = level_pack_index;
    }

    /// The pack in play, while the index is in range.
    pub fn get_current_level_pack(&self) -> (r: Option<&LevelPack>)
        ensures
            match r {
                Some(p) => self.current_level_pack_index < self.level_packs@.len() && *p
                    == self.level_packs@[self.current_level_pack_index as int],
                None => self.current_level_pack_index >= self.level_packs@.len(),
            },
    {
        if self.current_level_pack_index < self.level_packs.len() {
            Some(&self.level_packs[self.current_level_pack_index])
        } else {
            None
        }
    }

    /// The pack in play for updating, while the index is in range.
    pub fn get_current_level_pack_mut(&mut self) -> (r: Option<&mut LevelPack>)
        ensures
            old(self).current_level_pack_index < old(self).level_packs@.len() ==> r.is_some()
                && *r.unwrap() == old(self).level_packs@[old(self).current_level_pack_index as int]
                && final(self).level_packs@ == old(self).level_packs@.update(
                old(self).current_level_pack_index as int,
                *final(r.unwrap()),
            ) && *final(self) == (GameState {
                level_packs: final(self).level_packs,
                ..*old(self)
            }),
            old(self).current_level_pack_index >= old(self).level_packs@.len() ==> r.is_none()
                && *final(self) == *old(self),
    {
        if self.current_level_pack_index < self.level_packs.len() {
            Some(&mut self.level_packs[self.current_level_pack_index])
        } else {
            None
        }
    }

    /// Index of the level in play.
    pub fn get_level_index(&self) -> (r: usize)
        ensures
            r == self.current_level_index,
    {
        self.current_level_index
    }

    /// Chooses the level in play.
    pub fn set_level_index(&mut self, level_index: usize)
        ensures
            *final(self) == (GameState { current_level_index: level_index, ..*old(self) }),
    {
        self.current_level_index = level_index;
    }

    /// Whether the player marker currently flashes with swapped colors.
    pub fn is_player_background(&self) -> (r: bool)
        ensures
            r == self.is_player_background,
    {
        self.is_player_background
    }

    /// Shows the help pages.
    pub fn open_help_page(&mut self)
        ensures
            *final(self) == (GameState { is_help: true, ..*old(self) }),
    {
        self.is_help = true;
    }

    /// Leaves the help pages.
    pub fn close_help_page(&mut self)
        ensures
            *final(self) == (GameState { is_help: false, ..*old(self) }),
    {
        self.is_help = false;
    }

    /// Whether a dialog is waiting for an answer.
    pub fn is_dialog_opened(&self) -> (r: bool)
        ensures
            r == (self.dialog is Some),
    {
        match self.dialog {
            Some(_) => true,
            None => false,
        }
    }

    /// Opens a dialog; input goes to it until it is closed.
    pub fn open_dialog(&mut self, dialog: DialogYesNo)
        ensures
            *final(self) == (GameState { dialog: Some(dialog), ..*old(self) }),
    {
        self.dialog = Some(dialog);
    }

    /// Closes the open dialog, if any.
    pub fn close_dialog(&mut self)
        ensures
            *final(self) == (GameState { dialog: None, ..*old(self) }),
    {
        self.dialog = None;
    }

    /// Asks the surrounding application to shut the game down.
    pub fn exit(&mut self)
        ensures
            *final(self) == (GameState { should_exit: true, ..*old(self) }),
    {
        self.should_exit = true;
    }

    /// Notes that the hidden level pack was found.  Returns true exactly when
    /// this is news — the pack in play is the main pack and the secret was
    /// not found before — in which case the caller loads the secret pack and
    /// hands it to [`GameState::insert_level_pack`].
    pub fn on_found_secret(&mut self) -> (r: bool)
        ensures
            r == (old(self).current_level_pack_index == 1 && !old(
                self,
            ).found_secret_main_level_pack),
            r ==> *final(self) == (GameState {
                found_secret_main_level_pack: true,
                ..*old(self)
            }),
            !r ==> *final(self) == *old(self),
    {
        if self.current_level_pack_index == 1 && !self.found_secret_main_level_pack {
            self.found_secret_main_level_pack = true;
            true
        } else {
            false
        }
    }

    /// Splices a freshly loaded pack in at `index`, keeping the order of the
    /// others.
    pub fn insert_level_pack(&mut self, index: usize, pack: LevelPack)
        requires
            index <= old(self).level_packs@.len(),
        ensures
            final(self).level_packs@ == old(self).level_packs@.insert(index as int, pack),
            *final(self) == (GameState { level_packs: final(self).level_packs, ..*old(self) }),
    {
        self.level_packs.insert(index, pack);
    }
}

} // verus!
