//! Yes/no dialogs drawn over the current screen.

use vstd::prelude::*;
use vstd::string::StringExecFns;
use vstd::utf8::is_ascii_chars;
use crate::console::{Color, Console, DrawStep};
use crate::text::{repeat_char, repeated};

verus! {

/// The player's answer to a yes/no dialog.
#[derive(Debug, Clone, Copy, PartialEq, Eq, Structural, Hash)]
pub enum DialogSelection {
    No,
    Yes,
}

/// A modal window the current screen hands input to while it is open.
pub trait Dialog {
    /// Records the dialog's window.
    fn draw(&self, console: &mut Console, console_width: usize, console_height: usize);

    /// The selection a key press means, if any.
    fn on_key_pressed(&self, console_width: usize, console_height: usize, key: i32) -> Option<
        DialogSelection,
    >;

    /// The selection a mouse click means, if any.
    fn on_mouse_pressed(
        &self,
        console_width: usize,
        console_height: usize,
        column: usize,
        row: usize,
    ) -> Option<DialogSelection>;
}

/// Left column of the dialog border for a window of inner width `width` on a
/// console `console_width` wide.
pub open spec fn dialog_x_start(console_width: int, width: int) -> int {
    if console_width > width + 2 {
        (console_width - (width + 2)) / 2
    } else {
        0
    }
}

/// Top row of the dialog window on a console `console_height` high.
pub open spec fn dialog_y_start(console_height: int) -> int {
    if console_height > 6 {
        (console_height - 6) / 2
    } else {
        0
    }
}

/// Inner width of a dialog window showing `message`: the message, but at
/// least sixteen columns.
pub open spec fn dialog_width(message: Seq<char>) -> int {
    if message.len() >= 16 {
        message.len() as int
    } else {
        16
    }
}

/// The recorded steps of one border row `row`: a blank in the left and in
/// the right border column.
pub open spec fn dialog_border_row(x_start: int, width_with_border: int, row: int) -> Seq<
    DrawStep,
> {
    seq![
        DrawStep::SetCursorPos(x_start, row),
        DrawStep::Text(" "@),
        DrawStep::SetCursorPos(x_start + width_with_border - 1, row),
        DrawStep::Text(" "@),
    ]
}

/// Everything a yes/no dialog with text `message` records on a
/// `console_width` by `console_height` console: the centered message, an
/// underline, the `[y]es`/`[n]o` row, and a colored border around it all.
pub open spec fn dialog_steps(
    message: Seq<char>,
    console_width: int,
    console_height: int,
) -> Seq<DrawStep> {
    let char_count = message.len() as int;
    let width = dialog_width(message);
    let width_with_border = width + 2;
    let x_start = dialog_x_start(console_width, width);
    let y_start = dialog_y_start(console_height);
    let pad = (width - char_count) / 2;
    seq![
        DrawStep::SetColor(Color::Black, Color::Yellow),
        DrawStep::SetCursorPos(x_start + 1, y_start + 1),
        DrawStep::Text(repeated(' ', pad) + message + repeated(' ', width - char_count - pad)),
        DrawStep::SetCursorPos(x_start + 1, y_start + 2),
        DrawStep::Text(
            repeated(' ', pad) + repeated('-', char_count) + repeated(' ', width - char_count - pad),
        ),
        DrawStep::SetCursorPos(x_start + 1, y_start + 3),
        DrawStep::Text(repeated(' ', width)),
        DrawStep::SetCursorPos(x_start + 1, y_start + 4),
        DrawStep::Text("[y]es"@ + repeated(' ', width - 9) + "[n]o"@),
        DrawStep::SetColor(Color::LightBlack, Color::Red),
        DrawStep::SetCursorPos(x_start, y_start),
        DrawStep::Text(repeated(' ', width_with_border)),
        DrawStep::SetCursorPos(x_start, y_start + 5),
        DrawStep::Text(repeated(' ', width_with_border)),
    ] + dialog_border_row(x_start, width_with_border, y_start + 1) + dialog_border_row(
        x_start,
        width_with_border,
        y_start + 2,
    ) + dialog_border_row(x_start, width_with_border, y_start + 3) + dialog_border_row(
        x_start,
        width_with_border,
        y_start + 4,
    )
}

/// The selection a click at `(column, row)` means on a yes/no dialog showing
/// `message`: the `[y]es` cells select yes, the `[n]o` cells select no.
pub open spec fn dialog_click(
    message: Seq<char>,
    console_width: int,
    console_height: int,
    column: int,
    row: int,
) -> Option<DialogSelection> {
    let width = dialog_width(message);
    let x_start = dialog_x_start(console_width, width);
    let y_start = dialog_y_start(console_height);
    if row == y_start + 4 {
        if x_start + 1 <= column < x_start + 6 {
            Some(DialogSelection::Yes)
        } else if x_start + width - 3 <= column < x_start + width + 1 {
            Some(DialogSelection::No)
        } else {
            None
        }
    } else {
        None
    }
}

/// A dialog asking a yes/no question.
pub struct DialogYesNo {
    message: String,
}

impl DialogYesNo {
    /// The question shown.
    pub closed spec fn spec_message(&self) -> Seq<char> {
        self.message@
    }

    /// A short ASCII question fits the dialog window.
    #[verifier::type_invariant]
    pub closed spec fn wf(&self) -> bool {
        &&& self.spec_message().len() <= 64
        &&& is_ascii_chars(self.spec_message())
    }

    /// Wraps a question; it must be short enough for one dialog row.
    pub fn new(message: String) -> (r: Self)
        requires
            message@.len() <= 64,
            is_ascii_chars(message@),
        ensures
            r.spec_message() == message@,
            r.wf(),
    {
        Self { message }
    }
}

impl Dialog for DialogYesNo {
    /// Records the dialog window as [`dialog_steps`] lays it out.
    fn draw(&self, console: &mut Console, console_width: usize, console_height: usize) {
        proof {
            use_type_invariant(self);
        }
        draw_yes_no(&self.message, console, console_width, console_height);
    }

    /// `y` selects yes, `n` selects no, anything else nothing.
    fn on_key_pressed(&self, console_width: usize, console_height: usize, key: i32) -> Option<
        DialogSelection,
    > {
        if key == 121 {  // 'y'
            Some(DialogSelection::Yes)
        } else if key == 110 {  // 'n'
            Some(DialogSelection::No)
        } else {
            None
        }
    }

    /// A click on the answer row selects as [`dialog_click`] says.
    fn on_mouse_pressed(
        &self,
        console_width: usize,
        console_height: usize,
        column: usize,
        row: usize,
    ) -> Option<DialogSelection> {
        proof {
            use_type_invariant(self);
        }
        yes_no_mouse_selection(&self.message, console_width, console_height, column, row)
    }
}

/// Records a yes/no dialog window showing `message`; the steps are exactly
/// [`dialog_steps`].
#[verifier::rlimit(100)]
pub fn draw_yes_no(
    message: &String,
    console: &mut Console,
    console_width: usize,
    console_height: usize,
)
    requires
        message@.len() <= 64,
        is_ascii_chars(message@),
    ensures
        final(console)@ == old(console)@ + dialog_steps(
            message@,
            console_width as int,
            console_height as int,
        ),
{
    proof {
        broadcast use vstd::string::is_ascii_spec_bytes;

    }
    let msg = message.as_str();
    assert(vstd::string::is_ascii(msg));
    let char_count = msg.len();

    let width = if char_count >= 16 {
        char_count
    } else {
        16
    };
    let width_with_border = width + 2;

    let x_start = if console_width > width_with_border {
        (console_width - width_with_border) / 2
    } else {
        0
    };
    let y_start = if console_height > 6 {
        (console_height - 6) / 2
    } else {
        0
    };

    let whitespace_count_half = (width - char_count) / 2;

    console.set_color(Color::Black, Color::Yellow);
    console.set_cursor_pos(x_start + 1, y_start + 1);
    let mut line = repeat_char(' ', whitespace_count_half);
    line.append(msg);
    let tail = repeat_char(' ', width - char_count - whitespace_count_half);
    line.append(tail.as_str());
    console.draw_text(line.as_str());

    console.set_cursor_pos(x_start + 1, y_start + 2);
    let mut line = repeat_char(' ', whitespace_count_half);
    let dashes = repeat_char('-', char_count);
    line.append(dashes.as_str());
    let tail = repeat_char(' ', width - char_count - whitespace_count_half);
    line.append(tail.as_str());
    console.draw_text(line.as_str());

    console.set_cursor_pos(x_start + 1, y_start + 3);
    let line = repeat_char(' ', width);
    console.draw_text(line.as_str());

    console.set_cursor_pos(x_start + 1, y_start + 4);
    let mut line = String::from_str("[y]es");
    let gap = repeat_char(' ', width - 9);
    line.append(gap.as_str());
    line.append("[n]o");
    console.draw_text(line.as_str());

    console.set_color(Color::LightBlack, Color::Red);
    console.set_cursor_pos(x_start, y_start);
    let line = repeat_char(' ', width_with_border);
    console.draw_text(line.as_str());

    console.set_cursor_pos(x_start, y_start + 5);
    let line = repeat_char(' ', width_with_border);
    console.draw_text(line.as_str());

    console.set_cursor_pos(x_start, y_start + 1);
    console.draw_text(" ");
    console.set_cursor_pos(x_start + width_with_border - 1, y_start + 1);
    console.draw_text(" ");

    console.set_cursor_pos(x_start, y_start + 2);
    console.draw_text(" ");
    console.set_cursor_pos(x_start + width_with_border - 1, y_start + 2);
    console.draw_text(" ");

    console.set_cursor_pos(x_start, y_start + 3);
    console.draw_text(" ");
    console.set_cursor_pos(x_start + width_with_border - 1, y_start + 3);
    console.draw_text(" ");

    console.set_cursor_pos(x_start, y_start + 4);
    console.draw_text(" ");
    console.set_cursor_pos(x_start + width_with_border - 1, y_start + 4);
    console.draw_text(" ");

    proof {
        assert(console@ =~= old(console)@ + dialog_steps(
            message@,
            console_width as int,
            console_height as int,
        ));
    }
}

/// The selection a click means on a yes/no dialog showing `message`; exactly
/// [`dialog_click`].
pub fn yes_no_mouse_selection(
    message: &String,
    console_width: usize,
    console_height: usize,
    column: usize,
    row: usize,
) -> (r: Option<DialogSelection>)
    requires
        message@.len() <= 64,
        is_ascii_chars(message@),
    ensures
        r == dialog_click(
            message@,
            console_width as int,
            console_height as int,
            column as int,
            row as int,
        ),
{
    proof {
        broadcast use vstd::string::is_ascii_spec_bytes;

    }
    let msg = message.as_str();
    assert(vstd::string::is_ascii(msg));
    let char_count = msg.len();

    let width = if char_count >= 16 {
        char_count
    } else {
        16
    };
    let width_with_border = width + 2;

    let x_start = if console_width > width_with_border {
        (console_width - width_with_border) / 2
    } else {
        0
    };
    let y_start = if console_height > 6 {
        (console_height - 6) / 2
    } else {
        0
    };

    if row == y_start + 4 {
        if column >= x_start + 1 && column < x_start + 6 {
            return Some(DialogSelection::Yes);
        } else if column >= x_start + width - 3 && column < x_start + width + 1 {
            return Some(DialogSelection::No);
        }
    }

    None
}

} // verus!
