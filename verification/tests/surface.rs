use yuletide::generics::Vec2;
use yuletide::graphics::Graphic;
use yuletide::term::{is_blank, longest_line, Color, Command, Term};

fn fresh() -> Term {
    let mut term = Term::new();
    term.take_commands();
    term
}

fn print(text: &str) -> Command {
    Command::Print(text.to_string())
}

fn outline(x: u16, y: u16, glyph: &str) -> Vec<Command> {
    vec![
        Command::MoveTo(Vec2::new(x, y)),
        Command::SetForeground(Color::AnsiValue(22)),
        print(glyph),
        Command::ResetColor,
        Command::Flush,
    ]
}

fn glyph(x: u16, y: u16, color: Color, glyph: &str) -> Vec<Command> {
    vec![
        Command::MoveTo(Vec2::new(x, y)),
        Command::SetForeground(color),
        print(glyph),
        Command::ResetColor,
        Command::Flush,
    ]
}

#[test]
fn new_surface_opens_the_session() {
    let term = Term::new();
    assert_eq!(term.commands(), &vec![Command::EnterRawMode, Command::HideCursor]);
}

#[test]
fn close_clears_and_gives_the_terminal_back() {
    let mut term = fresh();
    term.close();
    assert_eq!(
        term.commands(),
        &vec![
            Command::ClearAll,
            Command::MoveTo(Vec2::new(0, 0)),
            Command::ShowCursor,
            Command::LeaveRawMode,
        ]
    );
}

#[test]
fn take_commands_empties_the_surface() {
    let mut term = Term::new();
    term.set_attr_bold();
    let taken = term.take_commands();
    assert_eq!(taken, vec![Command::EnterRawMode, Command::HideCursor, Command::SetBold]);
    assert!(term.commands().is_empty());
    term.set_attr_reset();
    assert_eq!(term.commands(), &vec![Command::ResetAttributes]);
}

#[test]
fn size_falls_back_to_the_origin() {
    assert_eq!(Term::size(Some((80, 24))), Vec2::new(80, 24));
    assert_eq!(Term::size(None), Vec2::new(0, 0));
}

#[test]
fn clear_all_erases_and_homes_the_cursor() {
    let mut term = fresh();
    term.clear_all();
    assert_eq!(term.commands(), &vec![Command::ClearAll, Command::MoveTo(Vec2::new(0, 0))]);
}

#[test]
fn write_text_moves_writes_and_flushes() {
    let mut term = fresh();
    term.write_text(Vec2::new(3, 4), "FPS: 18.00");
    assert_eq!(
        term.commands(),
        &vec![Command::MoveTo(Vec2::new(3, 4)), print("FPS: 18.00"), Command::Flush]
    );
}

#[test]
fn write_bold_text_wraps_the_text_in_bold() {
    let mut term = fresh();
    term.write_bold_text(Vec2::new(1, 1), "hi");
    assert_eq!(
        term.commands(),
        &vec![
            Command::MoveTo(Vec2::new(1, 1)),
            Command::SetBold,
            print("hi"),
            Command::ResetAttributes,
            Command::Flush,
        ]
    );
}

#[test]
fn set_pixel_with_everything_given() {
    let mut term = fresh();
    term.set_pixel(Vec2::new(5, 6), Some(Color::Red), Some(Color::White), Some("#"));
    assert_eq!(
        term.commands(),
        &vec![
            Command::MoveTo(Vec2::new(5, 6)),
            Command::SetBackground(Color::Red),
            Command::SetForeground(Color::White),
            print("#"),
            Command::ResetColor,
            Command::Flush,
        ]
    );
}

#[test]
fn set_pixel_with_nothing_given_writes_a_space() {
    let mut term = fresh();
    term.set_pixel(Vec2::new(0, 0), None, None, None);
    assert_eq!(
        term.commands(),
        &vec![Command::MoveTo(Vec2::new(0, 0)), print(" "), Command::ResetColor, Command::Flush]
    );
}

#[test]
fn set_pixel_resets_the_colours_after_every_cell() {
    let mut term = fresh();
    term.set_pixel(Vec2::new(0, 0), Some(Color::Blue), None, None);
    term.set_pixel(Vec2::new(1, 0), None, None, Some("x"));
    let commands = term.commands();
    assert_eq!(commands[3], Command::ResetColor);
    assert_eq!(commands[5], Command::MoveTo(Vec2::new(1, 0)));
    assert_eq!(commands[6], print("x"));
}

#[test]
fn set_pixel_bg_paints_a_space_without_flushing() {
    let mut term = fresh();
    term.set_pixel_bg(Vec2::new(7, 8), Color::DarkYellow);
    assert_eq!(
        term.commands(),
        &vec![
            Command::MoveTo(Vec2::new(7, 8)),
            Command::SetBackground(Color::DarkYellow),
            print(" "),
            Command::ResetColor,
        ]
    );
}

#[test]
fn blank_is_exactly_one_space() {
    assert!(is_blank(" "));
    assert!(!is_blank(""));
    assert!(!is_blank("  "));
    assert!(!is_blank("x"));
    assert!(!is_blank("\t"));
}

#[test]
fn longest_line_counts_bytes() {
    assert_eq!(longest_line(&vec![]), 0);
    assert_eq!(longest_line(&vec!["ab", "abcd", "a"]), 4);
    assert_eq!(longest_line(&vec!["🎄", "abc"]), 4);
}

#[test]
fn draw_places_glyphs_by_line_and_column() {
    let mut term = fresh();
    term.draw(Vec2::new(10, 20), "ab\nc", Color::Green);
    let mut expected = Vec::new();
    expected.extend(glyph(10, 20, Color::Green, "a"));
    expected.extend(glyph(11, 20, Color::Green, "b"));
    expected.extend(glyph(10, 21, Color::Green, "c"));
    assert_eq!(term.commands(), &expected);
}

#[test]
fn draw_skips_single_spaces() {
    let mut term = fresh();
    term.draw(Vec2::new(0, 0), " a b\n  \n c", Color::Red);
    let mut expected = Vec::new();
    expected.extend(glyph(1, 0, Color::Red, "a"));
    expected.extend(glyph(3, 0, Color::Red, "b"));
    expected.extend(glyph(1, 2, Color::Red, "c"));
    assert_eq!(term.commands(), &expected);
}

#[test]
fn draw_gives_a_grapheme_cluster_one_cell() {
    let mut term = fresh();
    term.draw(Vec2::new(2, 3), "e\u{301}🎄x", Color::Cyan);
    let mut expected = Vec::new();
    expected.extend(glyph(2, 3, Color::Cyan, "e\u{301}"));
    expected.extend(glyph(3, 3, Color::Cyan, "🎄"));
    expected.extend(glyph(4, 3, Color::Cyan, "x"));
    assert_eq!(term.commands(), &expected);
}

#[test]
fn draw_drops_what_falls_off_the_grid() {
    let mut term = fresh();
    term.draw(Vec2::new(65534, 65535), "abc\ndef", Color::Red);
    let mut expected = Vec::new();
    expected.extend(glyph(65534, 65535, Color::Red, "a"));
    expected.extend(glyph(65535, 65535, Color::Red, "b"));
    assert_eq!(term.commands(), &expected);
}

#[test]
fn draw_of_nothing_emits_nothing() {
    let mut term = fresh();
    term.draw(Vec2::new(1, 1), "", Color::Red);
    assert!(term.commands().is_empty());
}

#[test]
fn draw_graphic_draws_the_sprite_text() {
    let sprite = Graphic::new("/\\\n||");
    let mut by_sprite = fresh();
    by_sprite.draw_graphic(Vec2::new(4, 4), &sprite, Color::AnsiValue(94));
    let mut by_text = fresh();
    by_text.draw(Vec2::new(4, 4), "/\\\n||", Color::AnsiValue(94));
    assert_eq!(by_sprite.commands(), by_text.commands());
    assert_eq!(by_sprite.commands().len(), 20);
}

#[test]
fn bubble_around_hi_at_the_origin() {
    let mut term = fresh();
    term.draw_text_bubble(Vec2::new(0, 0), "hi");
    let mut expected = Vec::new();
    expected.extend(outline(0, 0, "┏"));
    expected.extend(outline(3, 0, "┓"));
    expected.extend(outline(0, 2, "┗"));
    expected.extend(outline(3, 2, "┛"));
    expected.extend(outline(1, 0, "━"));
    expected.extend(outline(1, 2, "━"));
    expected.extend(outline(2, 0, "━"));
    expected.extend(outline(2, 2, "━"));
    expected.extend(outline(0, 1, "┃"));
    expected.extend(outline(3, 1, "┃"));
    expected.extend(vec![
        Command::MoveTo(Vec2::new(1, 1)),
        Command::SetBold,
        print("hi"),
        Command::ResetAttributes,
        Command::Flush,
    ]);
    assert_eq!(term.commands(), &expected);
}

#[test]
fn bubble_corners_of_hi_are_where_they_belong() {
    let mut term = fresh();
    term.draw_text_bubble(Vec2::new(0, 0), "hi");
    let commands = term.commands();
    let mut corners = Vec::new();
    for i in 0..commands.len() {
        if let Command::Print(text) = &commands[i] {
            if ["┏", "┓", "┗", "┛"].contains(&text.as_str()) {
                if let Command::MoveTo(at) = &commands[i - 2] {
                    corners.push((at.x, at.y));
                }
            }
        }
    }
    assert_eq!(corners, vec![(0, 0), (3, 0), (0, 2), (3, 2)]);
}

#[test]
fn bubble_with_two_lines_is_as_wide_as_the_longer() {
    let mut term = fresh();
    term.draw_text_bubble(Vec2::new(4, 4), "a\nbcd");
    let commands = term.commands();
    // 4 corners, 3 columns of two edge cells, 2 rows of two edge cells, 2 lines
    assert_eq!(commands.len(), 4 * 5 + 6 * 5 + 4 * 5 + 2 * 5);
    assert_eq!(commands[5], Command::MoveTo(Vec2::new(8, 4)));
    assert_eq!(commands[10], Command::MoveTo(Vec2::new(4, 7)));
    assert_eq!(commands[15], Command::MoveTo(Vec2::new(8, 7)));
    let text = &commands[70..];
    assert_eq!(text[0], Command::MoveTo(Vec2::new(5, 5)));
    assert_eq!(text[2], print("a"));
    assert_eq!(text[5], Command::MoveTo(Vec2::new(5, 6)));
    assert_eq!(text[7], print("bcd"));
}

#[test]
fn bubble_measures_lines_in_bytes() {
    let mut term = fresh();
    term.draw_text_bubble(Vec2::new(0, 0), "🎄");
    let commands = term.commands();
    assert_eq!(commands[5], Command::MoveTo(Vec2::new(5, 0)));
}

#[test]
fn bubble_around_nothing_is_four_corners() {
    let mut term = fresh();
    term.draw_text_bubble(Vec2::new(2, 2), "");
    let mut expected = Vec::new();
    expected.extend(outline(2, 2, "┏"));
    expected.extend(outline(3, 2, "┓"));
    expected.extend(outline(2, 3, "┗"));
    expected.extend(outline(3, 3, "┛"));
    assert_eq!(term.commands(), &expected);
}

#[test]
fn bubble_that_does_not_fit_is_not_painted() {
    let mut term = fresh();
    term.draw_text_bubble(Vec2::new(65533, 0), "hi");
    assert!(term.commands().is_empty());
    term.draw_text_bubble(Vec2::new(0, 65534), "hi");
    assert!(term.commands().is_empty());
    term.draw_text_bubble(Vec2::new(65532, 65533), "hi");
    assert_eq!(term.commands().len(), 55);
}
