use sokoban::console::{Color, Console, DrawCommand, Key};
use sokoban::game::help_page::{Section, SectionLayer};
use sokoban::game::level::{Level, Tile};
use sokoban::game::screen::Dialog;

#[test]
fn console_records_commands_in_order() {
    let mut console = Console::new();
    console.set_color(Color::Red, Color::Default);
    console.set_cursor_pos(3, 4);
    console.draw_text("hi");
    console.set_underline(true);
    console.reset_color();

    let commands = console.commands();
    assert_eq!(commands.len(), 5);
    assert_eq!(commands[0], DrawCommand::SetColor(Color::Red, Color::Default));
    assert_eq!(commands[1], DrawCommand::SetCursorPos(3, 4));
    assert_eq!(commands[2], DrawCommand::Text("hi".to_string()));
    assert_eq!(commands[3], DrawCommand::SetUnderline(true));
    assert_eq!(commands[4], DrawCommand::ResetColor);

    console.reset();
    assert!(console.commands().is_empty());
}

#[test]
fn set_color_invertible_swaps() {
    let mut console = Console::new();
    console.set_color_invertible(Color::Red, Color::Blue, false);
    console.set_color_invertible(Color::Red, Color::Blue, true);
    let commands = console.commands();
    assert_eq!(commands[0], DrawCommand::SetColor(Color::Red, Color::Blue));
    assert_eq!(commands[1], DrawCommand::SetColor(Color::Blue, Color::Red));
}

#[test]
fn tile_draw_uses_symbol_and_color() {
    let mut console = Console::new();
    Tile::Box.draw(&mut console, false);
    Tile::Player.draw(&mut console, false);
    Tile::Player.draw(&mut console, true);

    let commands = console.commands();
    assert_eq!(commands[0], DrawCommand::SetColor(Color::LightCyan, Color::Default));
    assert_eq!(commands[1], DrawCommand::Text("@".to_string()));
    assert_eq!(commands[2], DrawCommand::SetColor(Color::Yellow, Color::Default));
    assert_eq!(commands[3], DrawCommand::Text("P".to_string()));
    // While flashing, the player's colors swap.
    assert_eq!(commands[4], DrawCommand::SetColor(Color::Default, Color::Yellow));
    assert_eq!(commands[5], DrawCommand::Text("P".to_string()));
}

#[test]
fn level_draw_walks_rows() {
    let mut level = Level::new(2, 2);
    level.set_tile(0, 0, Tile::Wall);
    level.set_tile(1, 1, Tile::Goal);

    let mut console = Console::new();
    level.draw(&mut console, 5, 1, false);

    let commands = console.commands();
    // Two rows: cursor, two tiles (two commands each), newline.
    assert_eq!(commands.len(), 2 * (1 + 2 * 2 + 1));
    assert_eq!(commands[0], DrawCommand::SetCursorPos(5, 1));
    assert_eq!(commands[1], DrawCommand::SetColor(Color::LightGreen, Color::Default));
    assert_eq!(commands[2], DrawCommand::Text("#".to_string()));
    assert_eq!(commands[5], DrawCommand::Text("\n".to_string()));
    assert_eq!(commands[6], DrawCommand::SetCursorPos(5, 2));
}

#[test]
fn dialog_mouse_hits_yes_and_no() {
    let dialog = Dialog::new("Exit game?".to_string());

    // Window on a 74x23 console: x_start = (74-18)/2 = 28, y_start = (23-6)/2 = 8.
    // The answer row is y_start + 4 = 12; [y]es spans columns 29..33.
    assert_eq!(dialog.on_mouse_pressed(74, 23, 29, 12), Some(true));
    assert_eq!(dialog.on_mouse_pressed(74, 23, 33, 12), Some(true));
    // [n]o sits at the right edge: columns x_start+width-3 .. x_start+width.
    assert_eq!(dialog.on_mouse_pressed(74, 23, 41, 12), Some(false));
    assert_eq!(dialog.on_mouse_pressed(74, 23, 44, 12), Some(false));
    // Anywhere else: no answer.
    assert_eq!(dialog.on_mouse_pressed(74, 23, 37, 12), None);
    assert_eq!(dialog.on_mouse_pressed(74, 23, 29, 11), None);
}

#[test]
fn dialog_draw_centers_message() {
    let dialog = Dialog::new("Hi".to_string());
    let mut console = Console::new();
    dialog.draw(&mut console, 74, 23);

    let commands = console.commands();
    assert_eq!(commands[0], DrawCommand::SetColor(Color::Black, Color::Yellow));
    // width is at least 16, so "Hi" is centered in 16 columns.
    assert_eq!(commands[2], DrawCommand::Text("       Hi       ".to_string()));
}

#[test]
fn section_rows_align_page_numbers() {
    let mut console = Console::new();
    let section = Section::new(SectionLayer::Section(2), "Play".to_string(), 4);
    section.draw(&mut console, 20);

    let commands = console.commands();
    assert_eq!(commands[0], DrawCommand::SetColor(Color::Blue, Color::Default));
    assert_eq!(commands[1], DrawCommand::Text("2 Play.............5".to_string()));

    let mut console = Console::new();
    let section = Section::new(SectionLayer::SubSubSection(1, 2, 3), "Deep".to_string(), 0);
    section.draw(&mut console, 20);
    let commands = console.commands();
    assert_eq!(commands[0], DrawCommand::SetColor(Color::Cyan, Color::Default));
    assert_eq!(commands[1], DrawCommand::Text("      1.2.3 Deep...1".to_string()));
}

#[test]
fn game_error_carries_message() {
    let err = sokoban::game::GameError::new("Console is too small");
    assert_eq!(err.message(), "Console is too small");
}

#[test]
fn key_classification() {
    assert!(Key::new(5000).is_arrow_key());
    assert!(Key::new(5003).is_arrow_key());
    assert!(!Key::new(5004).is_arrow_key());
    assert!(!Key::new(65).is_arrow_key());

    assert!(Key::new(65).is_ascii());
    assert!(!Key::new(5000).is_ascii());
    assert_eq!(Key::new(65).to_ascii(), Some(65));
    assert_eq!(Key::new(5000).to_ascii(), None);

    assert!(Key::new('7' as i32).is_numeric());
    assert!(!Key::new('a' as i32).is_numeric());

    assert!(Key::new('a' as i32).is_alphanumeric());
    assert!(Key::new('Z' as i32).is_alphanumeric());
    assert!(Key::new('0' as i32).is_alphanumeric());
    assert!(!Key::new('!' as i32).is_alphanumeric());

    assert_eq!(Key::new(42).code(), 42);
}
