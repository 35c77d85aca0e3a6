//! The paint surface: every request becomes a run of terminal commands, kept in
//! the order in which a terminal has to carry them out.

use crate::generics::Vec2;
use crate::graphics::Graphic;
use crate::text::{graphemes_of, grapheme_clusters, lines_of, longest, split_lines, views_of};
use vstd::prelude::*;
use vstd::string::StrSliceExecFns;

verus! {

/// A terminal colour.
#[derive(Debug, Copy, Clone, PartialEq, Eq, Structural)]
pub enum Color {
    Reset,
    Black,
    DarkGrey,
    Red,
    DarkRed,
    Green,
    DarkGreen,
    Yellow,
    DarkYellow,
    Blue,
    DarkBlue,
    Magenta,
    DarkMagenta,
    Cyan,
    DarkCyan,
    White,
    Grey,
    Rgb { r: u8, g: u8, b: u8 },
    AnsiValue(u8),
}

/// One step that a terminal carries out.
#[derive(Debug, PartialEq, Eq)]
pub enum Command {
    /// Stop the terminal from echoing and line-buffering input.
    EnterRawMode,
    /// Undo `EnterRawMode`.
    LeaveRawMode,
    HideCursor,
    ShowCursor,
    /// Erase the whole visible area.
    ClearAll,
    /// Put the cursor on a cell.
    MoveTo(Vec2),
    SetBold,
    /// Switch every text attribute off.
    ResetAttributes,
    SetBackground(Color),
    SetForeground(Color),
    /// Go back to the terminal's default colours.
    ResetColor,
    /// Write text at the cursor.
    Print(String),
    /// Push everything written so far out to the terminal.
    Flush,
}

/// What a `Command` says, with its text as a sequence of characters.
pub enum CommandView {
    EnterRawMode,
    LeaveRawMode,
    HideCursor,
    ShowCursor,
    ClearAll,
    MoveTo(Vec2),
    SetBold,
    ResetAttributes,
    SetBackground(Color),
    SetForeground(Color),
    ResetColor,
    Print(Seq<char>),
    Flush,
}

impl View for Command {
    type V = CommandView;

    open spec fn view(&self) -> CommandView {
        match self {
            Command::EnterRawMode => CommandView::EnterRawMode,
            Command::LeaveRawMode => CommandView::LeaveRawMode,
            Command::HideCursor => CommandView::HideCursor,
            Command::ShowCursor => CommandView::ShowCursor,
            Command::ClearAll => CommandView::ClearAll,
            Command::MoveTo(at) => CommandView::MoveTo(*at),
            Command::SetBold => CommandView::SetBold,
            Command::ResetAttributes => CommandView::ResetAttributes,
            Command::SetBackground(c) => CommandView::SetBackground(*c),
            Command::SetForeground(c) => CommandView::SetForeground(*c),
            Command::ResetColor => CommandView::ResetColor,
            Command::Print(text) => CommandView::Print(text@),
            Command::Flush => CommandView::Flush,
        }
    }
}

/// The views of a run of commands, one for one.
pub open spec fn command_views(commands: Seq<Command>) -> Seq<CommandView> {
    Seq::new(commands.len(), |i: int| commands[i]@)
}

/// What `clear_all` emits: erase everything, then send the cursor home.
pub open spec fn clear_commands() -> Seq<CommandView> {
    seq![CommandView::ClearAll, CommandView::MoveTo(Vec2 { x: 0, y: 0 })]
}

/// What `write_text` emits.
pub open spec fn text_commands(at: Vec2, text: Seq<char>) -> Seq<CommandView> {
    seq![CommandView::MoveTo(at), CommandView::Print(text), CommandView::Flush]
}

/// What `write_bold_text` emits: the text between bold on and attributes off.
pub open spec fn bold_text_commands(at: Vec2, text: Seq<char>) -> Seq<CommandView> {
    seq![
        CommandView::MoveTo(at),
        CommandView::SetBold,
        CommandView::Print(text),
        CommandView::ResetAttributes,
        CommandView::Flush,
    ]
}

/// The colour commands of one cell: the background first, then the foreground,
/// each only where it is given.
pub open spec fn tint_commands(bg: Option<Color>, fg: Option<Color>) -> Seq<CommandView> {
    let back = match bg {
        Some(c) => seq![CommandView::SetBackground(c)],
        None => Seq::empty(),
    };
    let front = match fg {
        Some(c) => seq![CommandView::SetForeground(c)],
        None => Seq::empty(),
    };
    back + front
}

/// What `set_pixel` emits: go to the cell, set the colours that are given,
/// write the glyph (a single space where none is given), reset the colours,
/// flush.
pub open spec fn pixel_commands(
    at: Vec2,
    bg: Option<Color>,
    fg: Option<Color>,
    glyph: Option<Seq<char>>,
) -> Seq<CommandView> {
    let shown = match glyph {
        Some(g) => g,
        None => seq![' '],
    };
    seq![CommandView::MoveTo(at)] + tint_commands(bg, fg) + seq![
        CommandView::Print(shown),
        CommandView::ResetColor,
        CommandView::Flush,
    ]
}

/// What `set_pixel_bg` emits: a space on the given background, with the
/// colours reset afterwards and no flush.
pub open spec fn background_commands(at: Vec2, color: Color) -> Seq<CommandView> {
    seq![
        CommandView::MoveTo(at),
        CommandView::SetBackground(color),
        CommandView::Print(seq![' ']),
        CommandView::ResetColor,
    ]
}

/// The view of an optional string slice.
pub open spec fn glyph_view(glyph: Option<&str>) -> Option<Seq<char>> {
    match glyph {
        Some(g) => Some(g@),
        None => None,
    }
}

/// What painting one glyph of a sprite emits. The glyph that came from column
/// `x` of line `y` goes to the cell that far from `at`, in the foreground
/// colour `color`. A single space is see-through and a cell beyond the last
/// addressable row or column does not exist: neither emits anything.
pub open spec fn glyph_commands(at: Vec2, x: int, y: int, glyph: Seq<char>, color: Color) -> Seq<
    CommandView,
> {
    if glyph == seq![' '] || at.x + x > u16::MAX || at.y + y > u16::MAX {
        Seq::empty()
    } else {
        pixel_commands(
            Vec2 { x: (at.x + x) as u16, y: (at.y + y) as u16 },
            None,
            Some(color),
            Some(glyph),
        )
    }
}

/// What painting the first `n` glyphs of line `y` emits, left to right.
pub open spec fn row_commands(at: Vec2, y: int, glyphs: Seq<Seq<char>>, color: Color, n: int) -> Seq<
    CommandView,
>
    decreases n,
{
    if n <= 0 {
        Seq::empty()
    } else {
        row_commands(at, y, glyphs, color, n - 1) + glyph_commands(
            at,
            n - 1,
            y,
            glyphs[n - 1],
            color,
        )
    }
}

/// What painting the first `n` of `lines` emits, top to bottom, each line
/// split into its grapheme clusters.
pub open spec fn rows_commands(at: Vec2, lines: Seq<Seq<char>>, color: Color, n: int) -> Seq<
    CommandView,
>
    decreases n,
{
    if n <= 0 {
        Seq::empty()
    } else {
        let glyphs = grapheme_clusters(lines[n - 1]);
        rows_commands(at, lines, color, n - 1) + row_commands(
            at,
            n - 1,
            glyphs,
            color,
            glyphs.len() as int,
        )
    }
}

/// What `draw` emits for a text: all its lines, glyph by glyph.
pub open spec fn drawing_commands(at: Vec2, text: Seq<char>, color: Color) -> Seq<CommandView> {
    let lines = split_lines(text);
    rows_commands(at, lines, color, lines.len() as int)
}

/// The colour of a text bubble's outline.
pub open spec fn outline_color() -> Color {
    Color::AnsiValue(22)
}

/// One cell of a bubble's outline, `dx` columns and `dy` rows from `at`.
pub open spec fn outline_commands(at: Vec2, dx: int, dy: int, glyph: Seq<char>) -> Seq<CommandView> {
    pixel_commands(
        Vec2 { x: (at.x + dx) as u16, y: (at.y + dy) as u16 },
        None,
        Some(outline_color()),
        Some(glyph),
    )
}

/// How far the right edge of a bubble around `lines` is from its left edge:
/// the byte length of the longest line, and one.
pub open spec fn bubble_right(lines: Seq<Seq<char>>) -> int {
    longest(lines) as int + 1
}

/// How far the bottom edge of a bubble around `lines` is from its top edge:
/// the number of lines, and one.
pub open spec fn bubble_bottom(lines: Seq<Seq<char>>) -> int {
    lines.len() as int + 1
}

/// Whether the whole bubble around `lines`, with its top left corner on `at`,
/// lies on addressable cells.
pub open spec fn bubble_fits(at: Vec2, lines: Seq<Seq<char>>) -> bool {
    at.x + bubble_right(lines) <= u16::MAX && at.y + bubble_bottom(lines) <= u16::MAX
}

/// The four corners of a bubble: top left, top right, bottom left, bottom
/// right.
pub open spec fn corner_commands(at: Vec2, right: int, bottom: int) -> Seq<CommandView> {
    outline_commands(at, 0, 0, "┏"@) + outline_commands(at, right, 0, "┓"@) + outline_commands(
        at,
        0,
        bottom,
        "┗"@,
    ) + outline_commands(at, right, bottom, "┛"@)
}

/// The top and bottom edges of a bubble in the columns from 1 up to, not
/// including, `n`: for each column the top cell, then the bottom cell.
pub open spec fn horizontal_edge_commands(at: Vec2, bottom: int, n: int) -> Seq<CommandView>
    decreases n,
{
    if n <= 1 {
        Seq::empty()
    } else {
        horizontal_edge_commands(at, bottom, n - 1) + outline_commands(at, n - 1, 0, "━"@)
            + outline_commands(at, n - 1, bottom, "━"@)
    }
}

/// The left and right edges of a bubble in the rows from 1 up to, not
/// including, `n`: for each row the left cell, then the right cell.
pub open spec fn vertical_edge_commands(at: Vec2, right: int, n: int) -> Seq<CommandView>
    decreases n,
{
    if n <= 1 {
        Seq::empty()
    } else {
        vertical_edge_commands(at, right, n - 1) + outline_commands(at, 0, n - 1, "┃"@)
            + outline_commands(at, right, n - 1, "┃"@)
    }
}

/// The first `n` lines of a bubble's text, in bold, one per row, starting one
/// cell right of and one cell below `at`.
pub open spec fn bubble_text_commands(at: Vec2, lines: Seq<Seq<char>>, n: int) -> Seq<CommandView>
    decreases n,
{
    if n <= 0 {
        Seq::empty()
    } else {
        bubble_text_commands(at, lines, n - 1) + bold_text_commands(
            Vec2 { x: (at.x + 1) as u16, y: (at.y + n) as u16 },
            lines[n - 1],
        )
    }
}

/// What `draw_text_bubble` emits for a bubble that fits: the corners, the
/// horizontal edges, the vertical edges, then the text.
pub open spec fn bubble_commands(at: Vec2, lines: Seq<Seq<char>>) -> Seq<CommandView> {
    let right = bubble_right(lines);
    let bottom = bubble_bottom(lines);
    corner_commands(at, right, bottom) + horizontal_edge_commands(at, bottom, right)
        + vertical_edge_commands(at, right, bottom) + bubble_text_commands(
        at,
        lines,
        lines.len() as int,
    )
}

/// What `draw_text_bubble` emits for a text: its bubble where that fits, and
/// nothing where it does not.
pub open spec fn bubble_drawing(at: Vec2, text: Seq<char>) -> Seq<CommandView> {
    let lines = split_lines(text);
    if bubble_fits(at, lines) {
        bubble_commands(at, lines)
    } else {
        Seq::empty()
    }
}

/// Whether `glyph` is a single space.
pub fn is_blank(glyph: &str) -> (blank: bool)
    ensures
        blank == (glyph@ == seq![' ']),
{
    if glyph.unicode_len() == 1 {
        let c = glyph.get_char(0);
        assert(glyph@ == seq![c]);
        c == ' '
    } else {
        false
    }
}

/// The byte length of the longest of `lines`.
pub fn longest_line(lines: &Vec<&str>) -> (len: usize)
    ensures
        len == longest(views_of(lines@)),
{
    let mut len: usize = 0;
    let mut i: usize = 0;
    while i < lines.len()
        invariant
            i <= lines.len(),
            len == longest(views_of(lines@).take(i as int)),
        decreases lines.len() - i,
    {
        let here = lines[i].as_bytes().len();
        proof {
            let all = views_of(lines@);
            assert(all.take(i + 1).drop_last() == all.take(i as int));
            assert(all.take(i + 1).last() == lines@[i as int]@);
        }
        if here > len {
            len = here;
        }
        i += 1;
    }
    proof {
        let all = views_of(lines@);
        assert(all.take(lines.len() as int) == all);
    }
    len
}

/// A terminal's paint surface. It carries nothing out itself: each request
/// appends the commands that perform it, and whoever owns the terminal takes
/// them from here and runs them in order.
pub struct Term {
    commands: Vec<Command>,
}

impl View for Term {
    type V = Seq<CommandView>;

    /// Every command emitted and not yet taken, oldest first.
    closed spec fn view(&self) -> Seq<CommandView> {
        command_views(self.commands@)
    }
}

impl Term {
    /// A surface that opens the session: raw mode on, cursor hidden.
    pub fn new() -> (term: Term)
        ensures
            term@ == seq![CommandView::EnterRawMode, CommandView::HideCursor],
    {
        let mut term = Term { commands: Vec::new() };
        term.emit(Command::EnterRawMode);
        term.emit(Command::HideCursor);
        term
    }

    /// Ends the session: clear the screen, show the cursor, leave raw mode.
    pub fn close(&mut self)
        ensures
            final(self)@ == old(self)@ + clear_commands() + seq![
                CommandView::ShowCursor,
                CommandView::LeaveRawMode,
            ],
    {
        self.clear_all();
        self.emit(Command::ShowCursor);
        self.emit(Command::LeaveRawMode);
    }

    /// The terminal's size in cells from what a query for it gave: columns
    /// and rows in that order, or the empty extent where the query failed, so
    /// that nothing is laid out on a terminal of unknown size.
    pub fn size(reading: Option<(u16, u16)>) -> (size: Vec2)
        ensures
            size == match reading {
                Some(pair) => Vec2 { x: pair.0, y: pair.1 },
                None => Vec2 { x: 0, y: 0 },
            },
    {
        match reading {
            Some(value) => Vec2::from(value),
            None => Vec2::empty(),
        }
    }

    /// The commands emitted and not yet taken, oldest first.
    pub fn commands(&self) -> (commands: &Vec<Command>)
        ensures
            command_views(commands@) == self@,
    {
        &self.commands
    }

    /// Hands over the commands emitted so far and leaves the surface empty.
    pub fn take_commands(&mut self) -> (commands: Vec<Command>)
        ensures
            command_views(commands@) == old(self)@,
            final(self)@ == Seq::<CommandView>::empty(),
    {
        let mut commands: Vec<Command> = Vec::new();
        core::mem::swap(&mut self.commands, &mut commands);
        commands
    }

    fn emit(&mut self, command: Command)
        ensures
            final(self)@ == old(self)@.push(command@),
    {
        self.commands.push(command);
        assert(command_views(self.commands@) == command_views(old(self).commands@).push(
            command@,
        ));
    }

    /// Erases the visible area and sends the cursor to the origin.
    pub fn clear_all(&mut self)
        ensures
            final(self)@ == old(self)@ + clear_commands(),
    {
        self.emit(Command::ClearAll);
        self.emit(Command::MoveTo(Vec2::new(0, 0)));
    }

    /// Switches bold on for what is written next.
    pub fn set_attr_bold(&mut self)
        ensures
            final(self)@ == old(self)@.push(CommandView::SetBold),
    {
        self.emit(Command::SetBold);
    }

    /// Switches every text attribute off again.
    pub fn set_attr_reset(&mut self)
        ensures
            final(self)@ == old(self)@.push(CommandView::ResetAttributes),
    {
        self.emit(Command::ResetAttributes);
    }

    /// Writes `text` as it is, starting at cell `at`, and flushes.
    pub fn write_text(&mut self, at: Vec2, text: &str)
        ensures
            final(self)@ == old(self)@ + text_commands(at, text@),
    {
        self.emit(Command::MoveTo(at));
        self.emit(Command::Print(text.to_owned()));
        self.emit(Command::Flush);
    }

    /// Writes `text` in bold, starting at cell `at`, and flushes.
    pub fn write_bold_text(&mut self, at: Vec2, text: &str)
        ensures
            final(self)@ == old(self)@ + bold_text_commands(at, text@),
    {
        self.emit(Command::MoveTo(at));
        self.set_attr_bold();
        self.emit(Command::Print(text.to_owned()));
        self.set_attr_reset();
        self.emit(Command::Flush);
    }

    /// Paints one cell: the glyph `ch` (a space where there is none) in the
    /// colours that are given. The colours are reset after every cell, so that
    /// none bleeds into the next one.
    pub fn set_pixel(&mut self, at: Vec2, bg_color: Option<Color>, fg_color: Option<Color>, ch: Option<&str>)
        ensures
            final(self)@ == old(self)@ + pixel_commands(at, bg_color, fg_color, glyph_view(ch)),
    {
        self.emit(Command::MoveTo(at));
        if let Some(bg) = bg_color {
            self.emit(Command::SetBackground(bg));
        }
        if let Some(fg) = fg_color {
            self.emit(Command::SetForeground(fg));
        }
        let glyph = match ch {
            Some(g) => g,
            None => {
                proof {
                    reveal_strlit(" ");
                }
                assert(" "@ == seq![' ']);
                " "
            },
        };
        self.emit(Command::Print(glyph.to_owned()));
        self.emit(Command::ResetColor);
        self.emit(Command::Flush);
    }

    /// Paints the background of one cell. What ends up on the screen is what
    /// `set_pixel` with only a background shows; nothing is flushed.
    pub fn set_pixel_bg(&mut self, at: Vec2, color: Color)
        ensures
            final(self)@ == old(self)@ + background_commands(at, color),
    {
        self.emit(Command::MoveTo(at));
        self.emit(Command::SetBackground(color));
        proof {
            reveal_strlit(" ");
        }
        assert(" "@ == seq![' ']);
        self.emit(Command::Print(" ".to_owned()));
        self.emit(Command::ResetColor);
    }

    /// Blits a text with its top left corner on `at`: line by line downwards,
    /// and within a line one cell per grapheme cluster, in the foreground
    /// colour `color`. Single spaces are skipped, so that what was painted
    /// before shows through them; glyphs that would land beyond the last
    /// addressable row or column are dropped.
    pub fn draw(&mut self, at: Vec2, graphic: &str, color: Color)
        ensures
            final(self)@ == old(self)@ + drawing_commands(at, graphic@, color),
    {
        let lines = lines_of(graphic);
        let ghost all = split_lines(graphic@);
        let mut y: usize = 0;
        while y < lines.len()
            invariant
                y <= lines.len(),
                all == split_lines(graphic@),
                views_of(lines@) == all,
                self@ == old(self)@ + rows_commands(at, all, color, y as int),
            decreases lines.len() - y,
        {
            let glyphs = graphemes_of(lines[y]);
            let ghost row = grapheme_clusters(all[y as int]);
            let ghost before = self@;
            proof {
                assert(views_of(lines@)[y as int] == lines@[y as int]@);
                assert(views_of(glyphs@).len() == glyphs.len());
            }
            let mut x: usize = 0;
            while x < glyphs.len()
                invariant
                    x <= glyphs.len(),
                    y < lines.len(),
                    views_of(glyphs@) == row,
                    self@ == before + row_commands(at, y as int, row, color, x as int),
                decreases glyphs.len() - x,
            {
                let glyph = glyphs[x];
                assert(views_of(glyphs@)[x as int] == glyph@);
                if !is_blank(glyph) && x <= (u16::MAX - at.x) as usize && y <= (u16::MAX
                    - at.y) as usize {
                    self.set_pixel(
                        Vec2::new(at.x + x as u16, at.y + y as u16),
                        None,
                        Some(color),
                        Some(glyph),
                    );
                }
                x += 1;
            }
            y += 1;
        }
    }

    /// Blits a sprite; see `draw`.
    pub fn draw_graphic(&mut self, at: Vec2, graphic: &Graphic, color: Color)
        ensures
            final(self)@ == old(self)@ + drawing_commands(at, graphic@, color),
    {
        self.draw(at, graphic.sprite(), color);
    }

    /// Frames a text and writes it inside the frame, in bold. The frame's top
    /// left corner is on `at`; its right edge is one cell past the longest
    /// line, counted in bytes, and its bottom edge one row below the last
    /// line, so the text touches the frame. A bubble of which any part would
    /// lie beyond the last addressable row or column is not painted at all.
    pub fn draw_text_bubble(&mut self, at: Vec2, text: &str)
        ensures
            final(self)@ == old(self)@ + bubble_drawing(at, text@),
    {
        let lines = lines_of(text);
        let ghost all = split_lines(text@);
        let max_len = longest_line(&lines);
        let room_x = (u16::MAX - at.x) as usize;
        let room_y = (u16::MAX - at.y) as usize;
        assert(views_of(lines@).len() == lines.len());
        if room_x < 1 || max_len > room_x - 1 || room_y < 1 || lines.len() > room_y - 1 {
            return ;
        }
        let right: u16 = (max_len + 1) as u16;
        let bottom: u16 = (lines.len() + 1) as u16;
        let outline = Some(Color::AnsiValue(22));

        self.set_pixel(at, None, outline, Some("┏"));
        self.set_pixel(Vec2::new(at.x + right, at.y), None, outline, Some("┓"));
        self.set_pixel(Vec2::new(at.x, at.y + bottom), None, outline, Some("┗"));
        self.set_pixel(Vec2::new(at.x + right, at.y + bottom), None, outline, Some("┛"));
        let ghost framed = self@;
        assert(framed == old(self)@ + corner_commands(at, right as int, bottom as int));

        let mut x: u16 = 1;
        while x < right
            invariant
                1 <= x <= right,
                outline == Some(outline_color()),
                at.x + right <= u16::MAX,
                at.y + bottom <= u16::MAX,
                self@ == framed + horizontal_edge_commands(at, bottom as int, x as int),
            decreases right - x,
        {
            self.set_pixel(Vec2::new(at.x + x, at.y), None, outline, Some("━"));
            self.set_pixel(Vec2::new(at.x + x, at.y + bottom), None, outline, Some("━"));
            assert(self@ == framed + horizontal_edge_commands(at, bottom as int, x + 1));
            x += 1;
        }
        let ghost edged = self@;

        let mut y: u16 = 1;
        while y < bottom
            invariant
                1 <= y <= bottom,
                outline == Some(outline_color()),
                at.x + right <= u16::MAX,
                at.y + bottom <= u16::MAX,
                self@ == edged + vertical_edge_commands(at, right as int, y as int),
            decreases bottom - y,
        {
            self.set_pixel(Vec2::new(at.x, at.y + y), None, outline, Some("┃"));
            self.set_pixel(Vec2::new(at.x + right, at.y + y), None, outline, Some("┃"));
            assert(self@ == edged + vertical_edge_commands(at, right as int, y + 1));
            y += 1;
        }
        let ghost boxed = self@;

        let mut i: usize = 0;
        while i < lines.len()
            invariant
                i <= lines.len(),
                views_of(lines@) == all,
                at.x + right <= u16::MAX,
                at.y + bottom <= u16::MAX,
                right >= 1,
                bottom == lines.len() + 1,
                self@ == boxed + bubble_text_commands(at, all, i as int),
            decreases lines.len() - i,
        {
            assert(views_of(lines@)[i as int] == lines@[i as int]@);
            self.write_bold_text(Vec2::new(at.x + 1, at.y + (i as u16 + 1)), lines[i]);
            i += 1;
        }
    }
}

} // verus!
