use tic_tac_toe::tui::{Color, DrawOp, Tui};

fn glyphs(ops: &[DrawOp]) -> String {
    let mut text = String::new();
    for op in ops.iter() {
        match op {
            DrawOp::Glyph(c) => text.push(*c),
            other => panic!("not a glyph: {:?}", other),
        }
    }
    text
}

#[test]
fn new_display_list_is_empty() {
    let tui = Tui::new();
    assert!(tui.pending().is_empty());
}

#[test]
fn operations_are_recorded_in_order() {
    let mut tui = Tui::new();
    tui.cursor_show();
    tui.cursor_goto(3, 5);
    tui.cover_screen();
    tui.bg_set(Color::LightBlack);
    tui.fg_set(Color::LightCyan);
    tui.print_msg("hello");
    tui.reset_srg();
    assert_eq!(
        *tui.pending(),
        vec![
            DrawOp::CursorShow,
            DrawOp::Goto(3, 5),
            DrawOp::CoverScreen,
            DrawOp::Background(Color::LightBlack),
            DrawOp::Foreground(Color::LightCyan),
            DrawOp::Message(String::from("hello")),
            DrawOp::ResetStyle,
        ]
    );
}

#[test]
fn take_empties_the_list() {
    let mut tui = Tui::new();
    tui.cursor_goto(39, 1);
    tui.reset_srg();
    let ops = tui.take();
    assert_eq!(ops, vec![DrawOp::Goto(39, 1), DrawOp::ResetStyle]);
    assert!(tui.pending().is_empty());
    assert!(tui.take().is_empty());
}

#[test]
fn cursor_sequences_are_encoded() {
    assert_eq!(DrawOp::CursorHide.encode(), "\x1b[?25l");
    assert_eq!(DrawOp::CursorShow.encode(), "\x1b[?25h");
}

#[test]
fn goto_names_the_row_before_the_column() {
    assert_eq!(DrawOp::Goto(3, 5).encode(), "\x1b[3;5H");
    assert_eq!(DrawOp::Goto(1, 1).encode(), "\x1b[1;1H");
    assert_eq!(DrawOp::Goto(35, 25).encode(), "\x1b[35;25H");
    assert_eq!(DrawOp::Goto(0, 7).encode(), "\x1b[0;7H");
    assert_eq!(DrawOp::Goto(10, 0).encode(), "\x1b[10;0H");
    assert_eq!(DrawOp::Goto(100, 209).encode(), "\x1b[100;209H");
    assert_eq!(DrawOp::Goto(65535, 4096).encode(), "\x1b[65535;4096H");
}

#[test]
fn screen_sequences_are_encoded() {
    assert_eq!(DrawOp::ClearScreen.encode(), "\x1b[2J");
    assert_eq!(DrawOp::CoverScreen.encode(), "\x1b[H\x1b[J");
    assert_eq!(DrawOp::ResetStyle.encode(), "\x1b[m");
}

#[test]
fn glyph_is_wrapped_in_the_line_drawing_set() {
    assert_eq!(DrawOp::Glyph('q').encode(), "\x1b(0q\x1b(B");
    assert_eq!(DrawOp::Glyph(' ').encode(), "\x1b(0 \x1b(B");
    assert_eq!(DrawOp::Glyph('a').encode(), "\x1b(0a\x1b(B");
}

#[test]
fn message_is_printed_in_quotes() {
    assert_eq!(DrawOp::Message(String::from("Draw!")).encode(), "\"Draw!\"");
    assert_eq!(DrawOp::Message(String::from(" HELP ")).encode(), "\" HELP \"");
    assert_eq!(DrawOp::Message(String::new()).encode(), "\"\"");
    assert_eq!(DrawOp::Message(String::from("a\"b\n")).encode(), "\"a\\\"b\\n\"");
}

#[test]
fn foreground_colours_are_encoded_or_switched_off() {
    let cases = [
        (Color::Black, "\x1b[38;5;0m"),
        (Color::LightBlack, "\x1b[38;5;8m"),
        (Color::LightBlue, "\x1b[38;5;12m"),
        (Color::LightCyan, "\x1b[38;5;14m"),
    ];
    for (color, expected) in cases.iter() {
        let text = DrawOp::Foreground(*color).encode();
        assert!(text == *expected || text.is_empty());
    }
}

#[test]
fn background_colours_are_encoded_or_switched_off() {
    let cases = [
        (Color::Black, "\x1b[48;5;0m"),
        (Color::LightBlack, "\x1b[48;5;8m"),
        (Color::LightBlue, "\x1b[48;5;12m"),
        (Color::LightCyan, "\x1b[48;5;14m"),
    ];
    for (color, expected) in cases.iter() {
        let text = DrawOp::Background(*color).encode();
        assert!(text == *expected || text.is_empty());
    }
}

#[test]
fn colours_are_switched_off_together() {
    let fg = DrawOp::Foreground(Color::LightCyan).encode();
    let bg = DrawOp::Background(Color::LightCyan).encode();
    assert_eq!(fg.is_empty(), bg.is_empty());
}

#[test]
fn render_joins_the_encodings_and_empties_the_list() {
    let mut tui = Tui::new();
    tui.cursor_goto(1, 18);
    tui.print_msg(" HELP ");
    tui.cover_screen();
    tui.reset_srg();
    assert_eq!(tui.render(), "\x1b[1;18H\" HELP \"\x1b[H\x1b[J\x1b[m");
    assert!(tui.pending().is_empty());
    assert_eq!(tui.render(), "");
}

#[test]
fn render_of_a_big_character_sends_each_dot() {
    let mut tui = Tui::new();
    tui.draw_char((2, 6), 'x');
    let text = tui.render();
    let blank = "\x1b(0 \x1b(B";
    let block = "\x1b(0a\x1b(B";
    let first_line = format!(
        "\x1b[3;6H{}{}{}{}{}{}{}{}",
        block, block, blank, blank, blank, blank, block, block
    );
    assert!(text.starts_with(&format!("\x1b[2;6H{}", first_line)));
    assert!(text.ends_with(&format!("\x1b[10;6H{}{}{}{}{}{}{}{}", block, block, blank, blank, blank, blank, block, block)));
    assert_eq!(text.len(), 6 + 7 * 6 + 7 + 64 * 7);
}

#[test]
fn nought_is_drawn_as_a_ring() {
    let mut tui = Tui::new();
    tui.draw_char((2, 6), 'o');
    let ops = tui.take();
    assert_eq!(ops.len(), 73);
    assert_eq!(ops[0], DrawOp::Goto(2, 6));
    let expected = [
        "  aaaa  ", "aa    aa", "aa    aa", "aa    aa", "aa    aa", "aa    aa", "aa    aa",
        "  aaaa  ",
    ];
    for (line, dots) in expected.iter().enumerate() {
        let start = 1 + 9 * line;
        assert_eq!(ops[start], DrawOp::Goto(3 + line as u16, 6));
        assert_eq!(glyphs(&ops[start + 1..start + 9]), *dots);
    }
}

#[test]
fn cross_is_drawn_as_two_diagonals() {
    let mut tui = Tui::new();
    tui.draw_char((12, 21), 'x');
    let ops = tui.take();
    assert_eq!(ops.len(), 73);
    assert_eq!(ops[0], DrawOp::Goto(12, 21));
    let expected = [
        "aa    aa", "aa    aa", " aa  aa ", "  aaaa  ", "  aaaa  ", " aa  aa ", "aa    aa",
        "aa    aa",
    ];
    for (line, dots) in expected.iter().enumerate() {
        let start = 1 + 9 * line;
        assert_eq!(ops[start], DrawOp::Goto(13 + line as u16, 21));
        assert_eq!(glyphs(&ops[start + 1..start + 9]), *dots);
    }
}

#[test]
fn any_other_character_is_drawn_as_a_block() {
    for cases in ['*', ' ', 'O', 'X', 'a'].iter() {
        let mut tui = Tui::new();
        tui.draw_char((22, 36), *cases);
        let ops = tui.take();
        assert_eq!(ops.len(), 73);
        assert_eq!(ops[0], DrawOp::Goto(22, 36));
        for line in 0..8 {
            let start = 1 + 9 * line;
            assert_eq!(ops[start], DrawOp::Goto(23 + line as u16, 36));
            assert_eq!(glyphs(&ops[start + 1..start + 9]), "aaaaaaaa");
        }
    }
}

#[test]
fn big_character_fits_below_the_last_origin() {
    let mut tui = Tui::new();
    tui.draw_char((65527, 0), 'o');
    let ops = tui.take();
    assert_eq!(ops[0], DrawOp::Goto(65527, 0));
    assert_eq!(ops[1], DrawOp::Goto(65528, 0));
    assert_eq!(ops[64], DrawOp::Goto(65535, 0));
}

#[test]
fn drawing_appends_to_what_is_pending() {
    let mut tui = Tui::new();
    tui.cursor_show();
    tui.draw_char((2, 6), 'o');
    let ops = tui.take();
    assert_eq!(ops.len(), 74);
    assert_eq!(ops[0], DrawOp::CursorShow);
    assert_eq!(ops[1], DrawOp::Goto(2, 6));
}

#[test]
fn main_screen_starts_by_clearing() {
    let mut tui = Tui::new();
    tui.main_screen();
    let ops = tui.take();
    assert_eq!(ops.len(), 4 + 32 * 49 + 9 * 10 * 15 + 10);
    assert_eq!(
        ops[..4],
        [
            DrawOp::CursorHide,
            DrawOp::ClearScreen,
            DrawOp::Foreground(Color::LightBlue),
            DrawOp::Background(Color::Black),
        ]
    );
}

#[test]
fn main_screen_draws_the_outer_frame() {
    let mut tui = Tui::new();
    tui.main_screen();
    let ops = tui.take();
    let frame = &ops[4..4 + 32 * 49];
    for line in 0..32 {
        let row = &frame[49 * line..49 * (line + 1)];
        assert_eq!(row[0], DrawOp::Goto(1 + line as u16, 1));
        let expected = if line == 0 {
            format!("l{}k", "q".repeat(46))
        } else if line == 31 {
            format!("m{}j", "q".repeat(46))
        } else {
            format!("x{}x", " ".repeat(46))
        };
        assert_eq!(glyphs(&row[1..]), expected);
    }
}

#[test]
fn main_screen_draws_the_nine_cell_frames() {
    let mut tui = Tui::new();
    tui.main_screen();
    let ops = tui.take();
    let frames = &ops[4 + 32 * 49..4 + 32 * 49 + 9 * 150];
    let corners = [
        (2, 3),
        (2, 18),
        (2, 33),
        (12, 3),
        (12, 18),
        (12, 33),
        (22, 3),
        (22, 18),
        (22, 33),
    ];
    for (k, (x, y)) in corners.iter().enumerate() {
        let frame = &frames[150 * k..150 * (k + 1)];
        for line in 0..10 {
            let row = &frame[15 * line..15 * (line + 1)];
            assert_eq!(row[0], DrawOp::Goto(x + line as u16, *y));
            let expected = if line == 0 {
                "lqqqqqqqqqqqqk"
            } else if line == 9 {
                "mqqqqqqqqqqqqj"
            } else {
                "x            x"
            };
            assert_eq!(glyphs(&row[1..]), expected);
        }
    }
}

#[test]
fn main_screen_ends_with_the_title_and_the_help() {
    let mut tui = Tui::new();
    tui.main_screen();
    let ops = tui.take();
    assert_eq!(
        ops[ops.len() - 10..],
        [
            DrawOp::Goto(1, 18),
            DrawOp::Message(String::from(" tic-tac-toe ")),
            DrawOp::Goto(33, 4),
            DrawOp::Message(String::from(" HELP ")),
            DrawOp::Goto(34, 5),
            DrawOp::Message(String::from("Arrow Keys - cursor movement ")),
            DrawOp::Goto(35, 5),
            DrawOp::Message(String::from("Enter - put ")),
            DrawOp::Goto(35, 25),
            DrawOp::Message(String::from("ESC - quit ")),
        ]
    );
}
