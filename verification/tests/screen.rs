use tic_tac_toe::board::Mark;
use tic_tac_toe::game::{Command, Game, GameInfo};
use tic_tac_toe::rules::Outcome;
use tic_tac_toe::tui::{Color, DrawOp, Tui};

fn picture(ops: &[DrawOp]) -> Vec<String> {
    let mut lines = Vec::new();
    for line in 0..8 {
        let mut text = String::new();
        for op in ops[1 + 9 * line + 1..1 + 9 * line + 9].iter() {
            match op {
                DrawOp::Glyph(c) => text.push(*c),
                other => panic!("not a glyph: {:?}", other),
            }
        }
        lines.push(text);
    }
    lines
}

fn block() -> Vec<String> {
    vec![String::from("aaaaaaaa"); 8]
}

fn ring() -> Vec<String> {
    let mut lines = vec![String::from("aa    aa"); 8];
    lines[0] = String::from("  aaaa  ");
    lines[7] = String::from("  aaaa  ");
    lines
}

fn diagonals() -> Vec<String> {
    vec![
        String::from("aa    aa"),
        String::from("aa    aa"),
        String::from(" aa  aa "),
        String::from("  aaaa  "),
        String::from("  aaaa  "),
        String::from(" aa  aa "),
        String::from("aa    aa"),
        String::from("aa    aa"),
    ]
}

#[test]
fn empty_field_shows_only_the_cursor() {
    let info = GameInfo::new();
    let mut tui = Tui::new();
    info.update_field(&mut tui);
    let ops = tui.take();
    assert_eq!(ops.len(), 9 * 75);
    for k in 0..9 {
        let cell = &ops[75 * k..75 * (k + 1)];
        let (row, col) = ((k / 3) as u16, (k % 3) as u16);
        if k == 0 {
            assert_eq!(cell[0], DrawOp::Foreground(Color::LightCyan));
            assert_eq!(cell[1], DrawOp::Background(Color::LightBlack));
        } else {
            assert_eq!(cell[0], DrawOp::Foreground(Color::Black));
            assert_eq!(cell[1], DrawOp::Background(Color::Black));
        }
        assert_eq!(cell[2], DrawOp::Goto(row * 10 + 2, col * 15 + 6));
        assert_eq!(cell[3], DrawOp::Goto(row * 10 + 3, col * 15 + 6));
        assert_eq!(picture(&cell[2..]), block());
    }
}

#[test]
fn marks_are_drawn_in_their_cells() {
    let mut game = Game::new();
    let commands = vec![Command::Confirm, Command::MoveDown, Command::MoveRight];
    assert_eq!(game.start(&commands), Outcome::Ongoing);
    let mut tui = Tui::new();
    game.info().update_field(&mut tui);
    let ops = tui.take();
    assert_eq!(ops.len(), 9 * 75);

    let nought = &ops[0..75];
    assert_eq!(nought[0], DrawOp::Foreground(Color::LightCyan));
    assert_eq!(nought[1], DrawOp::Background(Color::Black));
    assert_eq!(nought[2], DrawOp::Goto(2, 6));
    assert_eq!(picture(&nought[2..]), ring());

    let cross = &ops[75..150];
    assert_eq!(cross[0], DrawOp::Foreground(Color::LightCyan));
    assert_eq!(cross[1], DrawOp::Background(Color::Black));
    assert_eq!(cross[2], DrawOp::Goto(2, 21));
    assert_eq!(picture(&cross[2..]), diagonals());

    let empty = &ops[150..225];
    assert_eq!(empty[0], DrawOp::Foreground(Color::Black));
    assert_eq!(empty[1], DrawOp::Background(Color::Black));
    assert_eq!(empty[2], DrawOp::Goto(2, 36));
    assert_eq!(picture(&empty[2..]), block());

    let selected = &ops[4 * 75..5 * 75];
    assert_eq!(selected[0], DrawOp::Foreground(Color::LightCyan));
    assert_eq!(selected[1], DrawOp::Background(Color::LightBlack));
    assert_eq!(selected[2], DrawOp::Goto(12, 21));
    assert_eq!(picture(&selected[2..]), block());

    let last = &ops[8 * 75..];
    assert_eq!(last[0], DrawOp::Foreground(Color::Black));
    assert_eq!(last[1], DrawOp::Background(Color::Black));
    assert_eq!(last[2], DrawOp::Goto(22, 36));
    assert_eq!(last[66], DrawOp::Goto(30, 36));
}

#[test]
fn mark_under_the_cursor_is_highlighted() {
    let mut info = GameInfo::new();
    assert!(info.human_move(Mark::Cross));
    let mut tui = Tui::new();
    info.update_field(&mut tui);
    let ops = tui.take();
    assert_eq!(ops[0], DrawOp::Foreground(Color::LightCyan));
    assert_eq!(ops[1], DrawOp::Background(Color::LightBlack));
    assert_eq!(picture(&ops[2..75]), diagonals());
}

#[test]
fn field_is_drawn_after_what_is_pending() {
    let info = GameInfo::new();
    let mut tui = Tui::new();
    tui.cursor_show();
    info.update_field(&mut tui);
    let ops = tui.take();
    assert_eq!(ops.len(), 1 + 9 * 75);
    assert_eq!(ops[0], DrawOp::CursorShow);
    assert_eq!(ops[1], DrawOp::Foreground(Color::LightCyan));
}

fn ending_after(marks: &[Mark]) -> Vec<DrawOp> {
    let mut info = GameInfo::new();
    for mark in marks.iter() {
        info.computer_move(*mark);
    }
    info.check_win();
    let mut tui = Tui::new();
    info.game_over(&mut tui);
    tui.take()
}

fn cover() -> Vec<DrawOp> {
    vec![
        DrawOp::Foreground(Color::LightCyan),
        DrawOp::Background(Color::Black),
        DrawOp::CoverScreen,
        DrawOp::Goto(15, 17),
    ]
}

#[test]
fn ongoing_match_ends_without_a_message() {
    assert_eq!(ending_after(&[]), cover());
    assert_eq!(ending_after(&[Mark::Nought, Mark::Cross]), cover());
}

#[test]
fn nought_win_is_announced() {
    let mut expected = cover();
    expected.push(DrawOp::Message(String::from("Nought Win!")));
    assert_eq!(ending_after(&[Mark::Nought, Mark::Nought, Mark::Nought]), expected);
}

#[test]
fn cross_win_is_announced() {
    let mut expected = cover();
    expected.push(DrawOp::Message(String::from("Cross Win!")));
    assert_eq!(ending_after(&[Mark::Cross, Mark::Cross, Mark::Cross]), expected);
}

#[test]
fn draw_is_announced() {
    let (o, x) = (Mark::Nought, Mark::Cross);
    let mut expected = cover();
    expected.push(DrawOp::Message(String::from("Draw!")));
    assert_eq!(ending_after(&[x, o, x, o, o, x, o, x, o]), expected);
}

#[test]
fn result_is_rendered_in_quotes() {
    let mut info = GameInfo::new();
    info.computer_move(Mark::Cross);
    info.computer_move(Mark::Cross);
    info.computer_move(Mark::Cross);
    assert!(info.check_win());
    let mut tui = Tui::new();
    info.game_over(&mut tui);
    let text = tui.render();
    assert!(text.ends_with("\x1b[H\x1b[J\x1b[15;17H\"Cross Win!\""));
}

#[test]
fn stale_outcome_is_what_game_over_prints() {
    let mut info = GameInfo::new();
    info.computer_move(Mark::Cross);
    info.computer_move(Mark::Cross);
    info.computer_move(Mark::Cross);
    let mut tui = Tui::new();
    info.game_over(&mut tui);
    assert_eq!(tui.take(), cover());
}
