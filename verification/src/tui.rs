//! The display list: the operations that draw the game on a terminal, and
//! the escape sequences that a terminal takes for them.

use vstd::prelude::*;
use vstd::string::StringExecFns;

verus! {

/// The colours that the game draws with.
#[derive(Clone, Copy, Debug, PartialEq, Eq, Structural)]
pub enum Color {
    Black,
    LightBlack,
    LightBlue,
    LightCyan,
}

/// One operation on the terminal.
#[derive(Debug, PartialEq, Eq)]
pub enum DrawOp {
    /// Hide the cursor.
    CursorHide,
    /// Show the cursor.
    CursorShow,
    /// Move the cursor to a row and a column, both counted from 1.
    Goto(u16, u16),
    /// Clear the whole screen.
    ClearScreen,
    /// Move the cursor home and clear what follows it.
    CoverScreen,
    /// Set the background colour.
    Background(Color),
    /// Set the foreground colour.
    Foreground(Color),
    /// Print one character of the line-drawing character set.
    Glyph(char),
    /// Print a message.
    Message(String),
    /// Reset colours and attributes.
    ResetStyle,
}

/// The mathematical model of a [`DrawOp`].
pub enum DrawOpView {
    CursorHide,
    CursorShow,
    Goto(u16, u16),
    ClearScreen,
    CoverScreen,
    Background(Color),
    Foreground(Color),
    Glyph(char),
    Message(Seq<char>),
    ResetStyle,
}

impl View for DrawOp {
    type V = DrawOpView;

    open spec fn view(&self) -> DrawOpView {
        match *self {
            DrawOp::CursorHide => DrawOpView::CursorHide,
            DrawOp::CursorShow => DrawOpView::CursorShow,
            DrawOp::Goto(row, col) => DrawOpView::Goto(row, col),
            DrawOp::ClearScreen => DrawOpView::ClearScreen,
            DrawOp::CoverScreen => DrawOpView::CoverScreen,
            DrawOp::Background(color) => DrawOpView::Background(color),
            DrawOp::Foreground(color) => DrawOpView::Foreground(color),
            DrawOp::Glyph(c) => DrawOpView::Glyph(c),
            DrawOp::Message(text) => DrawOpView::Message(text@),
            DrawOp::ResetStyle => DrawOpView::ResetStyle,
        }
    }
}

/// The character that stands for a digit.
pub open spec fn digit_char(digit: nat) -> char {
    if digit == 0 {
        '0'
    } else if digit == 1 {
        '1'
    } else if digit == 2 {
        '2'
    } else if digit == 3 {
        '3'
    } else if digit == 4 {
        '4'
    } else if digit == 5 {
        '5'
    } else if digit == 6 {
        '6'
    } else if digit == 7 {
        '7'
    } else if digit == 8 {
        '8'
    } else {
        '9'
    }
}

/// A number in decimal notation, without leading zeros.
pub open spec fn decimal(n: nat) -> Seq<char>
    decreases n,
{
    if n < 10 {
        seq![digit_char(n)]
    } else {
        decimal(n / 10).push(digit_char(n % 10))
    }
}

/// The sequence that moves the cursor to a row and a column.
pub open spec fn goto_text(row: u16, col: u16) -> Seq<char> {
    "\x1b["@ + decimal(row as nat) + ";"@ + decimal(col as nat) + "H"@
}

/// The sequence that selects a colour as the foreground colour.
pub open spec fn fg_text(color: Color) -> Seq<char> {
    match color {
        Color::Black => "\x1b[38;5;0m"@,
        Color::LightBlack => "\x1b[38;5;8m"@,
        Color::LightBlue => "\x1b[38;5;12m"@,
        Color::LightCyan => "\x1b[38;5;14m"@,
    }
}

/// The sequence that selects a colour as the background colour.
pub open spec fn bg_text(color: Color) -> Seq<char> {
    match color {
        Color::Black => "\x1b[48;5;0m"@,
        Color::LightBlack => "\x1b[48;5;8m"@,
        Color::LightBlue => "\x1b[48;5;12m"@,
        Color::LightCyan => "\x1b[48;5;14m"@,
    }
}

/// The sequence that prints one character of the line-drawing character
/// set: it switches to that set, prints, and switches back.
pub open spec fn glyph_text(c: char) -> Seq<char> {
    "\x1b(0"@.push(c) + "\x1b(B"@
}

/// A text as the standard library's `Debug` formatting of strings prints it:
/// in double quotes, with escapes where the text needs them.
pub uninterp spec fn debug_text(text: Seq<char>) -> Seq<char>;

/// Whether `text` is what a terminal is sent for `op`. A colour has two
/// encodings: its escape sequence, and nothing at all where `NO_COLOR` is
/// set for the process.
pub open spec fn encodes(op: DrawOpView, text: Seq<char>) -> bool {
    match op {
        DrawOpView::CursorHide => text == "\x1b[?25l"@,
        DrawOpView::CursorShow => text == "\x1b[?25h"@,
        DrawOpView::Goto(row, col) => text == goto_text(row, col),
        DrawOpView::ClearScreen => text == "\x1b[2J"@,
        DrawOpView::CoverScreen => text == "\x1b[H\x1b[J"@,
        DrawOpView::Background(color) => text == bg_text(color) || text == Seq::<char>::empty(),
        DrawOpView::Foreground(color) => text == fg_text(color) || text == Seq::<char>::empty(),
        DrawOpView::Glyph(c) => text == glyph_text(c),
        DrawOpView::Message(message) => text == debug_text(message),
        DrawOpView::ResetStyle => text == "\x1b[m"@,
    }
}

impl DrawOpView {
    /// Whether the operation can be sent to a terminal: every operation can,
    /// but for a move to row 0, column 0, which is no position.
    pub open spec fn paintable(self) -> bool {
        self != DrawOpView::Goto(0, 0)
    }
}

/// Whether `text` is what a terminal is sent for the operations `ops`, one
/// after the other.
pub open spec fn renders(ops: Seq<DrawOpView>, text: Seq<char>) -> bool
    decreases ops.len(),
{
    if ops.len() == 0 {
        text == Seq::<char>::empty()
    } else {
        exists|cut: int|
            0 <= cut <= text.len() && renders(ops.drop_last(), #[trigger] text.take(cut))
                && encodes(ops.last(), text.skip(cut))
    }
}

/// `termion::cursor::Hide`, formatted: the sequence that hides the cursor.
#[verifier::external_body]
fn hide_sequence() -> (text: String)
    ensures
        text@ == "\x1b[?25l"@,
{
    format!("{}", termion::cursor::Hide)
}

/// `termion::cursor::Show`, formatted: the sequence that shows the cursor.
#[verifier::external_body]
fn show_sequence() -> (text: String)
    ensures
        text@ == "\x1b[?25h"@,
{
    format!("{}", termion::cursor::Show)
}

/// `termion::cursor::Goto`, formatted: the sequence that moves the cursor.
/// It names the row first and the column second, both in decimal. The
/// position (0, 0) is left out: for it the formatting fails an assertion.
#[verifier::external_body]
fn goto_sequence(row: u16, col: u16) -> (text: String)
    requires
        !(row == 0 && col == 0),
    ensures
        text@ == goto_text(row, col),
{
    format!("{}", termion::cursor::Goto(col, row))
}

/// `termion::clear::All`, formatted: the sequence that clears the screen.
#[verifier::external_body]
fn clear_sequence() -> (text: String)
    ensures
        text@ == "\x1b[2J"@,
{
    format!("{}", termion::clear::All)
}

/// `termion::style::Reset`, formatted: the sequence that resets colours and
/// attributes.
#[verifier::external_body]
fn reset_sequence() -> (text: String)
    ensures
        text@ == "\x1b[m"@,
{
    format!("{}", termion::style::Reset)
}

/// `termion::color::Fg` of a colour, formatted: the sequence that selects
/// the colour with that number in the 256-colour palette as the foreground
/// colour, or nothing where termion has found `NO_COLOR` set.
#[verifier::external_body]
fn foreground_sequence(color: Color) -> (text: String)
    ensures
        text@ == fg_text(color) || text@ == Seq::<char>::empty(),
{
    match color {
        Color::Black => format!("{}", termion::color::Fg(termion::color::Black)),
        Color::LightBlack => format!("{}", termion::color::Fg(termion::color::LightBlack)),
        Color::LightBlue => format!("{}", termion::color::Fg(termion::color::LightBlue)),
        Color::LightCyan => format!("{}", termion::color::Fg(termion::color::LightCyan)),
    }
}

/// `termion::color::Bg` of a colour, formatted: the sequence that selects
/// the colour with that number in the 256-colour palette as the background
/// colour, or nothing where termion has found `NO_COLOR` set.
#[verifier::external_body]
fn background_sequence(color: Color) -> (text: String)
    ensures
        text@ == bg_text(color) || text@ == Seq::<char>::empty(),
{
    match color {
        Color::Black => format!("{}", termion::color::Bg(termion::color::Black)),
        Color::LightBlack => format!("{}", termion::color::Bg(termion::color::LightBlack)),
        Color::LightBlue => format!("{}", termion::color::Bg(termion::color::LightBlue)),
        Color::LightCyan => format!("{}", termion::color::Bg(termion::color::LightCyan)),
    }
}

/// The standard library's `Debug` formatting of a string.
#[verifier::external_body]
fn debug_sequence(message: &str) -> (text: String)
    ensures
        text@ == debug_text(message@),
{
    format!("{:?}", message)
}

/// `String::push` appends one character to the string.
pub assume_specification[ String::push ](text: &mut String, c: char)
    ensures
        final(text)@ == old(text)@.push(c),
;

impl DrawOp {
    /// The text that a terminal is sent for this operation.
    pub fn encode(&self) -> (text: String)
        requires
            self@.paintable(),
        ensures
            encodes(self@, text@),
    {
        match self {
            DrawOp::CursorHide => hide_sequence(),
            DrawOp::CursorShow => show_sequence(),
            DrawOp::Goto(row, col) => goto_sequence(*row, *col),
            DrawOp::ClearScreen => clear_sequence(),
            DrawOp::CoverScreen => String::from_str("\x1b[H\x1b[J"),
            DrawOp::Background(color) => background_sequence(*color),
            DrawOp::Foreground(color) => foreground_sequence(*color),
            DrawOp::Glyph(c) => {
                let mut text = String::from_str("\x1b(0");
                text.push(*c);
                text.append("\x1b(B");
                text
            },
            DrawOp::Message(message) => debug_sequence(message.as_str()),
            DrawOp::ResetStyle => reset_sequence(),
        }
    }
}

/// The two words of the 8×8 dot pattern of a big character: the nought for
/// 'o', the cross for 'x', and a filled block for anything else. Each word
/// holds four lines of eight dots, the first line in its lowest byte, the
/// leftmost dot of a line in the lowest bit.
pub open spec fn pattern_of(cases: char) -> (u32, u32) {
    if cases == 'o' {
        (0xc3c3_c33cu32, 0x3cc3_c3c3u32)
    } else if cases == 'x' {
        (0x3c66_c3c3u32, 0xc3c3_663cu32)
    } else {
        (0xffff_ffffu32, 0xffff_ffffu32)
    }
}

/// Whether a bit of a pattern word is set.
pub open spec fn dot_set(word: u32, bit: u32) -> bool {
    (word >> bit) & 1 != 0
}

/// The character that draws the dot in line `line`, column `column` of a
/// big character: a shaded block where the dot is set, a blank where not.
pub open spec fn dot_of(cases: char, line: int, column: int) -> char {
    let pattern = pattern_of(cases);
    let word = if line < 4 {
        pattern.0
    } else {
        pattern.1
    };
    if dot_set(word, (8 * (line % 4) + column) as u32) {
        'a'
    } else {
        ' '
    }
}

/// The operations that draw line `line` of a big character: a move to the
/// start of the line, below the origin, and the eight dots.
pub open spec fn glyph_line(origin: (u16, u16), cases: char, line: int) -> Seq<DrawOpView> {
    seq![DrawOpView::Goto((origin.0 + 1 + line) as u16, origin.1)] + Seq::new(
        8,
        |column: int| DrawOpView::Glyph(dot_of(cases, line, column)),
    )
}

/// The operations that draw the first `count` lines of a big character.
pub open spec fn glyph_lines(origin: (u16, u16), cases: char, count: int) -> Seq<DrawOpView>
    decreases count,
{
    if count <= 0 {
        Seq::empty()
    } else {
        glyph_lines(origin, cases, count - 1) + glyph_line(origin, cases, count - 1)
    }
}

/// The operations that draw a big character: a move to the origin and the
/// eight lines of the pattern, which fill the eight rows below it.
pub open spec fn glyph_ops(origin: (u16, u16), cases: char) -> Seq<DrawOpView> {
    seq![DrawOpView::Goto(origin.0, origin.1)] + glyph_lines(origin, cases, 8)
}

/// The operations that draw line `line` of a box with its top left corner
/// in row `shape.0`, column `shape.1`, `shape.2` lines high and `shape.3`
/// columns wide between its sides: a move to the start of the line, then
/// the left end, the filling and the right end. The first line is the top
/// edge, the last line the bottom edge, and the lines between them are
/// blank between the two sides.
pub open spec fn box_line(shape: (u16, u16, u16, u16), line: int) -> Seq<DrawOpView> {
    let (left, fill, right) = if line == 0 {
        ('l', 'q', 'k')
    } else if line == shape.2 - 1 {
        ('m', 'q', 'j')
    } else {
        ('x', ' ', 'x')
    };
    seq![DrawOpView::Goto((shape.0 + line) as u16, shape.1), DrawOpView::Glyph(left)] + Seq::new(
        shape.3 as nat,
        |column: int| DrawOpView::Glyph(fill),
    ) + seq![DrawOpView::Glyph(right)]
}

/// The operations that draw the first `count` lines of a box.
pub open spec fn box_lines(shape: (u16, u16, u16, u16), count: int) -> Seq<DrawOpView>
    decreases count,
{
    if count <= 0 {
        Seq::empty()
    } else {
        box_lines(shape, count - 1) + box_line(shape, count - 1)
    }
}

/// The operations that draw a box, line by line from the top.
pub open spec fn box_ops(shape: (u16, u16, u16, u16)) -> Seq<DrawOpView> {
    box_lines(shape, shape.2 as int)
}

/// The operations that draw the frames of the nine cells, row by row.
pub open spec fn cell_frames() -> Seq<DrawOpView> {
    box_ops((2, 3, 10, 12)) + box_ops((2, 18, 10, 12)) + box_ops((2, 33, 10, 12)) + box_ops(
        (12, 3, 10, 12),
    ) + box_ops((12, 18, 10, 12)) + box_ops((12, 33, 10, 12)) + box_ops((22, 3, 10, 12))
        + box_ops((22, 18, 10, 12)) + box_ops((22, 33, 10, 12))
}

/// The operations that print the title and the help.
pub open spec fn legend() -> Seq<DrawOpView> {
    seq![
        DrawOpView::Goto(1, 18),
        DrawOpView::Message(" tic-tac-toe "@),
        DrawOpView::Goto(33, 4),
        DrawOpView::Message(" HELP "@),
        DrawOpView::Goto(34, 5),
        DrawOpView::Message("Arrow Keys - cursor movement "@),
        DrawOpView::Goto(35, 5),
        DrawOpView::Message("Enter - put "@),
        DrawOpView::Goto(35, 25),
        DrawOpView::Message("ESC - quit "@),
    ]
}

/// The operations that draw the main screen: the cursor is hidden and the
/// screen cleared, then come the outer frame, the frames of the nine cells,
/// the title and the help.
pub open spec fn main_screen_ops() -> Seq<DrawOpView> {
    seq![
        DrawOpView::CursorHide,
        DrawOpView::ClearScreen,
        DrawOpView::Foreground(Color::LightBlue),
        DrawOpView::Background(Color::Black),
    ] + box_ops((1, 1, 32, 46)) + cell_frames() + legend()
}

/// The two words of the dot pattern of a big character.
fn pattern(cases: char) -> (bits: (u32, u32))
    ensures
        bits == pattern_of(cases),
{
    if cases == 'o' {
        (0xc3c3_c33cu32, 0x3cc3_c3c3u32)
    } else if cases == 'x' {
        (0x3c66_c3c3u32, 0xc3c3_663cu32)
    } else {
        (0xffff_ffffu32, 0xffff_ffffu32)
    }
}

/// The views of a list of operations.
pub open spec fn views_of(ops: Seq<DrawOp>) -> Seq<DrawOpView> {
    ops.map_values(|op: DrawOp| op@)
}

/// A display list: the operations that were asked for and not yet handed to
/// a terminal, oldest first.
pub struct Tui {
    ops: Vec<DrawOp>,
}

impl View for Tui {
    type V = Seq<DrawOpView>;

    closed spec fn view(&self) -> Seq<DrawOpView> {
        views_of(self.ops@)
    }
}

impl Tui {
    /// Every operation in the list can be sent to a terminal.
    #[verifier::type_invariant]
    pub open spec fn inv(&self) -> bool {
        forall|i: int| 0 <= i < self@.len() ==> (#[trigger] self@[i]).paintable()
    }

    /// An empty display list.
    pub fn new() -> (tui: Tui)
        ensures
            tui@ == Seq::<DrawOpView>::empty(),
    {
        let tui = Tui { ops: Vec::new() };
        assert(tui@ =~= Seq::<DrawOpView>::empty());
        tui
    }

    /// The operations that wait to be handed to a terminal.
    pub fn pending(&self) -> (ops: &Vec<DrawOp>)
        ensures
            views_of(ops@) == self@,
            forall|i: int| 0 <= i < ops@.len() ==> (#[trigger] ops@[i])@.paintable(),
    {
        proof {
            use_type_invariant(self);
            assert forall|i: int| 0 <= i < self.ops@.len() implies (
            #[trigger] self.ops@[i])@.paintable() by {
                assert(self@[i] == self.ops@[i]@);
            }
        }
        &self.ops
    }

    /// Takes the operations off the list, leaving it empty.
    pub fn take(&mut self) -> (ops: Vec<DrawOp>)
        ensures
            views_of(ops@) == old(self)@,
            forall|i: int| 0 <= i < ops@.len() ==> (#[trigger] ops@[i])@.paintable(),
            final(self)@ == Seq::<DrawOpView>::empty(),
    {
        proof {
            use_type_invariant(&*self);
            assert forall|i: int| 0 <= i < self.ops@.len() implies (
            #[trigger] self.ops@[i])@.paintable() by {
                assert(self@[i] == self.ops@[i]@);
            }
        }
        let mut ops: Vec<DrawOp> = Vec::new();
        assert(views_of(ops@) =~= Seq::<DrawOpView>::empty());
        std::mem::swap(&mut self.ops, &mut ops);
        ops
    }

    /// Adds an operation to the end of the list.
    fn record(&mut self, op: DrawOp)
        requires
            op@.paintable(),
        ensures
            final(self)@ == old(self)@.push(op@),
    {
        proof {
            use_type_invariant(&*self);
        }
        // The list grows outside `self`, which holds an empty list meanwhile.
        let mut ops: Vec<DrawOp> = Vec::new();
        assert(views_of(ops@) =~= Seq::<DrawOpView>::empty());
        std::mem::swap(&mut self.ops, &mut ops);
        ops.push(op);
        assert(views_of(ops@) =~= old(self)@.push(op@));
        std::mem::swap(&mut self.ops, &mut ops);
    }

    /// Takes the operations off the list and returns the text that a
    /// terminal is sent for them, one after the other.
    pub fn render(&mut self) -> (text: String)
        ensures
            renders(old(self)@, text@),
            final(self)@ == Seq::<DrawOpView>::empty(),
    {
        let ops = self.take();
        let mut text = String::new();
        let mut next: usize = 0;
        assert(views_of(ops@).take(0) =~= Seq::<DrawOpView>::empty());
        while next < ops.len()
            invariant
                next <= ops.len(),
                forall|i: int| 0 <= i < ops@.len() ==> (#[trigger] ops@[i])@.paintable(),
                renders(views_of(ops@).take(next as int), text@),
            decreases ops.len() - next,
        {
            let ghost before = text@;
            let part = ops[next].encode();
            text.append(part.as_str());
            proof {
                let done = views_of(ops@).take(next + 1);
                assert(done.drop_last() =~= views_of(ops@).take(next as int));
                assert(done.last() == ops@[next as int]@);
                assert(text@.take(before.len() as int) =~= before);
                assert(text@.skip(before.len() as int) =~= part@);
            }
            next = next + 1;
        }
        assert(views_of(ops@).take(next as int) =~= views_of(ops@));
        text
    }

    /// Asks for the cursor to be hidden.
    fn cursor_hide(&mut self)
        ensures
            final(self)@ == old(self)@.push(DrawOpView::CursorHide),
    {
        self.record(DrawOp::CursorHide);
    }

    /// Asks for the cursor to be shown.
    pub fn cursor_show(&mut self)
        ensures
            final(self)@ == old(self)@.push(DrawOpView::CursorShow),
    {
        self.record(DrawOp::CursorShow);
    }

    /// Asks for the cursor to be moved to row `x`, column `y`, both counted
    /// from 1.
    pub fn cursor_goto(&mut self, x: u16, y: u16)
        requires
            !(x == 0 && y == 0),
        ensures
            final(self)@ == old(self)@.push(DrawOpView::Goto(x, y)),
    {
        self.record(DrawOp::Goto(x, y));
    }

    /// Asks for the whole screen to be cleared.
    fn clear_screen(&mut self)
        ensures
            final(self)@ == old(self)@.push(DrawOpView::ClearScreen),
    {
        self.record(DrawOp::ClearScreen);
    }

    /// Asks for the screen to be covered: the cursor goes home and what
    /// follows it is cleared.
    pub fn cover_screen(&mut self)
        ensures
            final(self)@ == old(self)@.push(DrawOpView::CoverScreen),
    {
        self.record(DrawOp::CoverScreen);
    }

    /// Asks for `color` as the background colour.
    pub fn bg_set(&mut self, color: Color)
        ensures
            final(self)@ == old(self)@.push(DrawOpView::Background(color)),
    {
        self.record(DrawOp::Background(color));
    }

    /// Asks for `color` as the foreground colour.
    pub fn fg_set(&mut self, color: Color)
        ensures
            final(self)@ == old(self)@.push(DrawOpView::Foreground(color)),
    {
        self.record(DrawOp::Foreground(color));
    }

    /// Asks for one character of the line-drawing character set.
    fn print_char(&mut self, c: char)
        ensures
            final(self)@ == old(self)@.push(DrawOpView::Glyph(c)),
    {
        self.record(DrawOp::Glyph(c));
    }

    /// Asks for a message to be printed.
    pub fn print_msg(&mut self, msg: &str)
        ensures
            final(self)@ == old(self)@.push(DrawOpView::Message(msg@)),
    {
        self.record(DrawOp::Message(msg.to_owned()));
    }

    /// Asks for colours and attributes to be reset.
    pub fn reset_srg(&mut self)
        ensures
            final(self)@ == old(self)@.push(DrawOpView::ResetStyle),
    {
        self.record(DrawOp::ResetStyle);
    }

    /// Draws a big character with its top left corner one row below
    /// `origin`: 'o' is the nought, 'x' the cross, and anything else a
    /// filled block.
    pub fn draw_char(&mut self, origin: (u16, u16), cases: char)
        requires
            origin.0 + 8 <= u16::MAX,
            !(origin.0 == 0 && origin.1 == 0),
        ensures
            final(self)@ == old(self)@ + glyph_ops(origin, cases),
    {
        let ghost base = self@;
        let bits = pattern(cases);
        let (x, y) = origin;
        self.cursor_goto(x, y);
        let ghost start = self@;
        let mut line: u16 = 0;
        assert(self@ =~= start + glyph_lines(origin, cases, 0));
        while line < 8
            invariant
                line <= 8,
                x + 8 <= u16::MAX,
                origin == (x, y),
                bits == pattern_of(cases),
                self@ == start + glyph_lines(origin, cases, line as int),
            decreases 8 - line,
        {
            let ghost above = self@;
            let ghost row = glyph_line(origin, cases, line as int);
            self.cursor_goto(x + 1 + line, y);
            let word: u32 = if line < 4 {
                bits.0
            } else {
                bits.1
            };
            let mut column: u32 = 0;
            assert(self@ =~= above + row.take(1));
            while column < 8
                invariant
                    column <= 8,
                    line < 8,
                    word == (if line < 4 {
                        pattern_of(cases).0
                    } else {
                        pattern_of(cases).1
                    }),
                    row == glyph_line(origin, cases, line as int),
                    self@ == above + row.take(1 + column),
                decreases 8 - column,
            {
                let bit: u32 = 8 * (line as u32 % 4) + column;
                let c = if (word >> bit) & 1 != 0 {
                    'a'
                } else {
                    ' '
                };
                self.print_char(c);
                assert(row[1 + column] == DrawOpView::Glyph(c));
                assert(above + row.take(1 + column + 1) =~= (above + row.take(1 + column)).push(
                    DrawOpView::Glyph(c),
                ));
                column = column + 1;
            }
            assert(row.take(9) =~= row);
            assert(start + glyph_lines(origin, cases, line + 1) =~= above + row);
            line = line + 1;
        }
        assert(base + glyph_ops(origin, cases) =~= start + glyph_lines(origin, cases, 8));
    }

    /// Draws a box: `shape` is the row and the column of its top left
    /// corner, its height in lines, and its width between the two sides.
    fn draw_box(&mut self, shape: (u16, u16, u16, u16))
        requires
            shape.0 + shape.2 <= u16::MAX,
            !(shape.0 == 0 && shape.1 == 0),
        ensures
            final(self)@ == old(self)@ + box_ops(shape),
    {
        let ghost base = self@;
        let (x1, y1, h, w) = shape;
        let mut line: u16 = 0;
        assert(self@ =~= base + box_lines(shape, 0));
        while line < h
            invariant
                line <= h,
                shape == (x1, y1, h, w),
                x1 + h <= u16::MAX,
                !(x1 == 0 && y1 == 0),
                self@ == base + box_lines(shape, line as int),
            decreases h - line,
        {
            let ghost above = self@;
            let ghost row = box_line(shape, line as int);
            let (left, fill, right) = if line == 0 {
                ('l', 'q', 'k')
            } else if line == h - 1 {
                ('m', 'q', 'j')
            } else {
                ('x', ' ', 'x')
            };
            self.cursor_goto(x1 + line, y1);
            self.print_char(left);
            let mut column: u16 = 0;
            assert(self@ =~= above + row.take(2));
            while column < w
                invariant
                    column <= w,
                    shape == (x1, y1, h, w),
                    line < h,
                    row == box_line(shape, line as int),
                    row[2 + w] == DrawOpView::Glyph(right),
                    row.len() == 3 + w,
                    forall|i: int| 2 <= i < 2 + w ==> #[trigger] row[i] == DrawOpView::Glyph(fill),
                    self@ == above + row.take(2 + column),
                decreases w - column,
            {
                self.print_char(fill);
                assert(above + row.take(2 + column + 1) =~= (above + row.take(2 + column)).push(
                    DrawOpView::Glyph(fill),
                ));
                column = column + 1;
            }
            self.print_char(right);
            assert(above + row =~= (above + row.take(2 + w)).push(DrawOpView::Glyph(right)));
            assert(base + box_lines(shape, line + 1) =~= above + row);
            line = line + 1;
        }
    }

    /// Draws the frames of the nine cells, row by row.
    fn draw_cell_frames(&mut self)
        ensures
            final(self)@ == old(self)@ + cell_frames(),
    {
        let ghost base = self@;
        self.draw_box((2, 3, 10, 12));
        let ghost done = box_ops((2, 3, 10, 12));
        self.draw_box((2, 18, 10, 12));
        proof {
            lemma_concat_assoc(base, done, box_ops((2, 18, 10, 12)));
            done = done + box_ops((2, 18, 10, 12));
        }
        self.draw_box((2, 33, 10, 12));
        proof {
            lemma_concat_assoc(base, done, box_ops((2, 33, 10, 12)));
            done = done + box_ops((2, 33, 10, 12));
        }
        self.draw_box((12, 3, 10, 12));
        proof {
            lemma_concat_assoc(base, done, box_ops((12, 3, 10, 12)));
            done = done + box_ops((12, 3, 10, 12));
        }
        self.draw_box((12, 18, 10, 12));
        proof {
            lemma_concat_assoc(base, done, box_ops((12, 18, 10, 12)));
            done = done + box_ops((12, 18, 10, 12));
        }
        self.draw_box((12, 33, 10, 12));
        proof {
            lemma_concat_assoc(base, done, box_ops((12, 33, 10, 12)));
            done = done + box_ops((12, 33, 10, 12));
        }
        self.draw_box((22, 3, 10, 12));
        proof {
            lemma_concat_assoc(base, done, box_ops((22, 3, 10, 12)));
            done = done + box_ops((22, 3, 10, 12));
        }
        self.draw_box((22, 18, 10, 12));
        proof {
            lemma_concat_assoc(base, done, box_ops((22, 18, 10, 12)));
            done = done + box_ops((22, 18, 10, 12));
        }
        self.draw_box((22, 33, 10, 12));
        proof {
            lemma_concat_assoc(base, done, box_ops((22, 33, 10, 12)));
        }
    }

    /// Prints the title and the help.
    fn draw_legend(&mut self)
        ensures
            final(self)@ == old(self)@ + legend(),
    {
        let ghost base = self@;
        self.cursor_goto(1, 18);
        self.print_msg(" tic-tac-toe ");
        self.cursor_goto(33, 4);
        self.print_msg(" HELP ");
        self.cursor_goto(34, 5);
        self.print_msg("Arrow Keys - cursor movement ");
        self.cursor_goto(35, 5);
        self.print_msg("Enter - put ");
        self.cursor_goto(35, 25);
        self.print_msg("ESC - quit ");
        assert(self@ =~= base + legend());
    }

    /// Draws the main screen: hides the cursor, clears the screen, and draws
    /// the outer frame, the frames of the nine cells, the title and the help.
    pub fn main_screen(&mut self)
        ensures
            final(self)@ == old(self)@ + main_screen_ops(),
    {
        let ghost base = self@;
        self.cursor_hide();
        self.clear_screen();
        self.fg_set(Color::LightBlue);
        self.bg_set(Color::Black);
        let ghost head = seq![
            DrawOpView::CursorHide,
            DrawOpView::ClearScreen,
            DrawOpView::Foreground(Color::LightBlue),
            DrawOpView::Background(Color::Black),
        ];
        assert(self@ =~= base + head);
        self.draw_box((1, 1, 32, 46));
        self.draw_cell_frames();
        self.draw_legend();
        proof {
            lemma_concat_assoc(base, head, box_ops((1, 1, 32, 46)));
            lemma_concat_assoc(base, head + box_ops((1, 1, 32, 46)), cell_frames());
            lemma_concat_assoc(base, head + box_ops((1, 1, 32, 46)) + cell_frames(), legend());
        }
    }
}

/// Joining display lists is associative.
proof fn lemma_concat_assoc(
    first: Seq<DrawOpView>,
    second: Seq<DrawOpView>,
    third: Seq<DrawOpView>,
)
    ensures
        (first + second) + third == first + (second + third),
{
    assert((first + second) + third =~= first + (second + third));
}

} // verus!
