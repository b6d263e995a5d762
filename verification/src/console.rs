//! Model of the text console.
//!
//! Drawing is recorded as a sequence of commands — colors, cursor moves,
//! text — instead of being written to a device.  The surrounding application
//! replays the recorded commands on a real terminal; everything that decides
//! *what* to draw stays here and is verified against the recorded sequence.

use vstd::prelude::*;
use vstd::string::StringExecFns;

verus! {

/// Key code of the left arrow key.
pub const KEY_LEFT: i32 = 5000;

/// Key code of the up arrow key.
pub const KEY_UP: i32 = 5001;

/// Key code of the right arrow key.
pub const KEY_RIGHT: i32 = 5002;

/// Key code of the down arrow key.
pub const KEY_DOWN: i32 = 5003;

/// Key code of the F1 key.
pub const KEY_F1: i32 = 5004;

/// Key code of the escape key.
pub const KEY_ESC: i32 = 5016;

/// Key code of the delete key.
pub const KEY_DELETE: i32 = 5017;

/// Key code of the enter key.
pub const KEY_ENTER: i32 = 5018;

/// Key code of the tab key.
pub const KEY_TAB: i32 = 5019;

/// The sixteen console colors plus the terminal default.
#[derive(Debug, Clone, Copy, PartialEq, Eq, Structural, Hash)]
pub enum Color {
    Black,
    Blue,
    Green,
    Cyan,
    Red,
    Pink,
    Yellow,
    White,
    LightBlack,
    LightBlue,
    LightGreen,
    LightCyan,
    LightRed,
    LightPink,
    LightYellow,
    LightWhite,
    Default,
}

/// A key press, by its code: ASCII codes below 128, special keys above.
#[derive(Debug, Clone, Copy, PartialEq, Eq, Structural, Hash)]
pub struct Key {
    code: i32,
}

impl Key {
    /// The code this key carries.
    pub closed spec fn spec_code(&self) -> int {
        self.code as int
    }

    /// Wraps a raw key code.
    pub fn new(code: i32) -> (k: Key)
        ensures
            k.spec_code() == code,
    {
        Key { code }
    }

    /// The raw key code.
    pub fn code(&self) -> (c: i32)
        ensures
            c == self.spec_code(),
    {
        self.code
    }

    /// Whether this is one of the four arrow keys.
    pub fn is_arrow_key(&self) -> (r: bool)
        ensures
            r == (KEY_LEFT <= self.spec_code() <= KEY_DOWN),
    {
        self.code >= KEY_LEFT && self.code <= KEY_DOWN
    }

    /// The ASCII code of this key, when it has one.
    pub fn to_ascii(&self) -> (r: Option<u8>)
        ensures
            match r {
                Some(a) => 0 <= self.spec_code() <= 127 && a == self.spec_code(),
                None => !(0 <= self.spec_code() <= 127),
            },
    {
        if self.is_ascii() {
            Some(self.code as u8)
        } else {
            None
        }
    }

    /// Whether the code is an ASCII code.
    pub fn is_ascii(&self) -> (r: bool)
        ensures
            r == (0 <= self.spec_code() <= 127),
    {
        self.code >= 0 && self.code <= 127
    }

    /// Whether this key is a decimal digit.
    pub fn is_numeric(&self) -> (r: bool)
        ensures
            r == (48 <= self.spec_code() <= 57),
    {
        self.code >= 48 && self.code <= 57
    }

    /// Whether this key is a decimal digit or a letter.
    pub fn is_alphanumeric(&self) -> (r: bool)
        ensures
            r == (48 <= self.spec_code() <= 57 || 65 <= self.spec_code() <= 90 || 97
                <= self.spec_code() <= 122),
    {
        (self.code >= 48 && self.code <= 57) || (self.code >= 65 && self.code <= 90) || (self.code
            >= 97 && self.code <= 122)
    }
}

/// One recorded drawing step.
#[derive(Debug, PartialEq)]
pub enum DrawCommand {
    /// Clear the screen and start a new frame.
    Clear,
    /// Use this foreground and background color from here on.
    SetColor(Color, Color),
    /// Fall back to the terminal's default colors.
    ResetColor,
    /// Switch underlining on or off.
    SetUnderline(bool),
    /// Continue drawing at this column and row.
    SetCursorPos(usize, usize),
    /// Write this text at the cursor.
    Text(String),
}

/// Mathematical view of one drawing step; text appears as its character
/// sequence.
pub enum DrawStep {
    Clear,
    SetColor(Color, Color),
    ResetColor,
    SetUnderline(bool),
    SetCursorPos(int, int),
    Text(Seq<char>),
}

/// The view of a recorded command.
pub open spec fn step_of(c: DrawCommand) -> DrawStep {
    match c {
        DrawCommand::Clear => DrawStep::Clear,
        DrawCommand::SetColor(fg, bg) => DrawStep::SetColor(fg, bg),
        DrawCommand::ResetColor => DrawStep::ResetColor,
        DrawCommand::SetUnderline(u) => DrawStep::SetUnderline(u),
        DrawCommand::SetCursorPos(x, y) => DrawStep::SetCursorPos(x as int, y as int),
        DrawCommand::Text(s) => DrawStep::Text(s@),
    }
}

/// The console as the rest of the library sees it: a recorder of drawing
/// commands, replayed on a real device by the surrounding application.
#[derive(Debug)]
pub struct Console {
    commands: Vec<DrawCommand>,
}

impl View for Console {
    type V = Seq<DrawStep>;

    closed spec fn view(&self) -> Seq<DrawStep> {
        self.commands@.map_values(|c: DrawCommand| step_of(c))
    }
}

impl Console {
    /// A recorder with nothing drawn yet.
    pub fn new() -> (c: Console)
        ensures
            c@ == Seq::<DrawStep>::empty(),
    {
        let c = Console { commands: Vec::new() };
        proof {
            assert(c@ =~= Seq::<DrawStep>::empty());
        }
        c
    }

    /// The commands recorded so far, oldest first.
    pub fn commands(&self) -> (r: &Vec<DrawCommand>)
        ensures
            r@.map_values(|c: DrawCommand| step_of(c)) == self@,
    {
        &self.commands
    }

    /// Forgets everything recorded so far.
    pub fn reset(&mut self)
        ensures
            final(self)@ == Seq::<DrawStep>::empty(),
    {
        self.commands.clear();
        proof {
            assert(self@ =~= Seq::<DrawStep>::empty());
        }
    }

    /// Records the start of a new frame.
    pub fn repaint(&mut self)
        ensures
            final(self)@ == old(self)@.push(DrawStep::Clear),
    {
        self.commands.push(DrawCommand::Clear);
        proof {
            assert(self@ =~= old(self)@.push(DrawStep::Clear));
        }
    }

    /// Records text drawn at the cursor.
    pub fn draw_text(&mut self, text: &str)
        ensures
            final(self)@ == old(self)@.push(DrawStep::Text(text@)),
    {
        self.commands.push(DrawCommand::Text(String::from_str(text)));
        proof {
            assert(self@ =~= old(self)@.push(DrawStep::Text(text@)));
        }
    }

    /// Records a color change.
    pub fn set_color(&mut self, fg: Color, bg: Color)
        ensures
            final(self)@ == old(self)@.push(DrawStep::SetColor(fg, bg)),
    {
        self.commands.push(DrawCommand::SetColor(fg, bg));
        proof {
            assert(self@ =~= old(self)@.push(DrawStep::SetColor(fg, bg)));
        }
    }

    /// Records a color change, with foreground and background swapped when
    /// `inverted` holds.
    pub fn set_color_invertible(&mut self, fg: Color, bg: Color, inverted: bool)
        ensures
            final(self)@ == old(self)@.push(
                if inverted {
                    DrawStep::SetColor(bg, fg)
                } else {
                    DrawStep::SetColor(fg, bg)
                },
            ),
    {
        if inverted {
            self.set_color(bg, fg);
        } else {
            self.set_color(fg, bg);
        }
    }

    /// Records a fallback to the default colors.
    pub fn reset_color(&mut self)
        ensures
            final(self)@ == old(self)@.push(DrawStep::ResetColor),
    {
        self.commands.push(DrawCommand::ResetColor);
        proof {
            assert(self@ =~= old(self)@.push(DrawStep::ResetColor));
        }
    }

    /// Records an underline switch.
    pub fn set_underline(&mut self, underline: bool)
        ensures
            final(self)@ == old(self)@.push(DrawStep::SetUnderline(underline)),
    {
        self.commands.push(DrawCommand::SetUnderline(underline));
        proof {
            assert(self@ =~= old(self)@.push(DrawStep::SetUnderline(underline)));
        }
    }

    /// Records a cursor move.
    pub fn set_cursor_pos(&mut self, x: usize, y: usize)
        ensures
            final(self)@ == old(self)@.push(DrawStep::SetCursorPos(x as int, y as int)),
    {
        self.commands.push(DrawCommand::SetCursorPos(x, y));
        proof {
            assert(self@ =~= old(self)@.push(DrawStep::SetCursorPos(x as int, y as int)));
        }
    }
}

/// Raised when the real console cannot be taken over.
#[derive(Debug)]
pub struct ConsoleError {
    message: String,
}

impl ConsoleError {
    /// The description carried by the error.
    pub closed spec fn spec_message(&self) -> Seq<char> {
        self.message@
    }

    /// Wraps a description.
    pub fn new(message: &str) -> (r: Self)
        ensures
            r.spec_message() == message@,
    {
        ConsoleError { message: String::from_str(message) }
    }

    /// The description carried by the error.
    pub fn message(&self) -> (m: &str)
        ensures
            m@ == self.spec_message(),
    {
        self.message.as_str()
    }
}

} // verus!
