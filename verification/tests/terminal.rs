use termcore::cell::Attributes;
use termcore::color::Color;
use termcore::renderer::{Renderer, render_screen_frame};
use termcore::task::{TaskAction, TaskEvent, TaskState, next_action, on_event};
use termcore::modes::CursorStyle;
use termcore::point::P;
use termcore::processor::Processor;
use termcore::screen::Screen;

fn run(screen: &mut Screen, bytes: &[u8]) -> Vec<u8> {
    let mut processor = Processor::default();
    let mut writer: Vec<u8> = Vec::new();
    processor.advance(bytes, screen, &mut writer);
    writer
}

#[test]
fn prints_hi_on_empty_screen() {
    let mut screen = Screen::new(P(10, 3));
    let out = run(&mut screen, b"Hi");
    assert_eq!(screen.cell(P(0, 0)).unwrap().ch, Some('H'));
    assert_eq!(screen.cell(P(1, 0)).unwrap().ch, Some('i'));
    assert_eq!(screen.cursor, P(2, 0));
    assert_eq!(screen.cell_template, Attributes::default());
    assert_eq!(out, Vec::<u8>::new());
}

#[test]
fn sgr_colors_individual_cells() {
    let mut screen = Screen::new(P(10, 3));
    run(&mut screen, b"\x1b[1;31mA\x1b[0mB");
    let a = screen.cell(P(0, 0)).unwrap();
    assert_eq!(a.ch, Some('A'));
    assert_eq!(a.attributes.fg, Color::Indexed(1));
    assert!(a.attributes.flags.bold);
    let b = screen.cell(P(1, 0)).unwrap();
    assert_eq!(b.ch, Some('B'));
    assert_eq!(b.attributes, Attributes::default());
}

#[test]
fn line_drawing_charset() {
    let mut screen = Screen::new(P(10, 3));
    run(&mut screen, b"\x1b(0lqk");
    assert_eq!(screen.cell(P(0, 0)).unwrap().ch, Some('┌'));
    assert_eq!(screen.cell(P(1, 0)).unwrap().ch, Some('─'));
    assert_eq!(screen.cell(P(2, 0)).unwrap().ch, Some('┐'));
    // Shifting back to ASCII restores the identity.
    run(&mut screen, b"\x1b(Bl");
    assert_eq!(screen.cell(P(3, 0)).unwrap().ch, Some('l'));
}

#[test]
fn cursor_position_report() {
    let mut screen = Screen::new(P(10, 10));
    // Place the cursor at column 5, line 3 (1-based): x = 4, y = 2.
    let out = run(&mut screen, b"\x1b[3;5H\x1b[6n");
    assert_eq!(screen.cursor, P(4, 2));
    assert_eq!(out, b"\x1b[2;4R".to_vec());
}

#[test]
fn goto_and_print() {
    let mut screen = Screen::new(P(20, 20));
    run(&mut screen, b"\x1b[5;10HX");
    assert_eq!(screen.cell(P(9, 4)).unwrap().ch, Some('X'));
    assert_eq!(screen.cursor, P(10, 4));
}

#[test]
fn osc_title() {
    let mut screen = Screen::new(P(10, 3));
    let before = screen.grid.clone();
    let out = run(&mut screen, b"\x1b]0;hello\x07");
    assert_eq!(screen.title, Some(b"hello".to_vec()));
    assert_eq!(out, Vec::<u8>::new());
    for y in 0..3 {
        for x in 0..10 {
            assert_eq!(
                screen.cell(P(x, y)),
                before.cell(P(x, y)),
            );
        }
    }
}

#[test]
fn csi_zero_and_absent_default_to_one() {
    let mut a = Screen::new(P(10, 10));
    run(&mut a, b"\x1b[5;5H\x1b[A");
    let mut b = Screen::new(P(10, 10));
    run(&mut b, b"\x1b[5;5H\x1b[0A");
    let mut c = Screen::new(P(10, 10));
    run(&mut c, b"\x1b[5;5H\x1b[1A");
    assert_eq!(a.cursor, P(4, 3));
    assert_eq!(b.cursor, P(4, 3));
    assert_eq!(c.cursor, P(4, 3));
}

#[test]
fn byte_split_matches_batch() {
    let bytes: &[u8] = b"\x1b[1;31mA\x1b]0;t\x07\x1b[6n\xe2\x94\x8c line\r\n\x1b[2J\x1b[5;5HZ";
    let mut batch = Screen::new(P(12, 6));
    let mut one = Screen::new(P(12, 6));
    let mut p1 = Processor::default();
    let mut p2 = Processor::default();
    let mut w1: Vec<u8> = Vec::new();
    let mut w2: Vec<u8> = Vec::new();
    p1.advance(bytes, &mut batch, &mut w1);
    for b in bytes {
        p2.advance(&[*b], &mut one, &mut w2);
    }
    assert_eq!(w1, w2);
    assert_eq!(batch.cursor, one.cursor);
    assert_eq!(batch.title, one.title);
    for y in 0..6 {
        for x in 0..12 {
            assert_eq!(batch.cell(P(x, y)), one.cell(P(x, y)));
        }
    }
}

#[test]
fn utf8_across_fragments() {
    let mut screen = Screen::new(P(10, 3));
    let mut p = Processor::default();
    let mut w: Vec<u8> = Vec::new();
    // '┌' is e2 94 8c; feed it byte by byte.
    p.advance(&[0xe2], &mut screen, &mut w);
    p.advance(&[0x94], &mut screen, &mut w);
    p.advance(&[0x8c], &mut screen, &mut w);
    assert_eq!(screen.cell(P(0, 0)).unwrap().ch, Some('┌'));
}

#[test]
fn device_attribute_replies() {
    let mut screen = Screen::new(P(10, 3));
    let out = run(&mut screen, b"\x1b[c");
    assert_eq!(out, b"\x1b[?1;2c".to_vec());
    let out2 = run(&mut screen, b"\x1b[>c");
    assert_eq!(out2, b"\x1b[>84;0;0c".to_vec());
    let out3 = run(&mut screen, b"\x1b[5n");
    assert_eq!(out3, b"\x1b[0n".to_vec());
}

#[test]
fn clipboard_set_and_query() {
    let mut screen = Screen::new(P(10, 3));
    let out = run(&mut screen, b"\x1b]52;c;aGVsbG8=\x07");
    assert_eq!(out, Vec::<u8>::new());
    assert_eq!(
        screen.get_clipboard(termcore::modes::ClipboardType::Clipboard),
        Some(b"hello".to_vec()),
    );
    let reply = run(&mut screen, b"\x1b]52;c;?\x07");
    assert_eq!(reply, b"\x1b]52;c;aGVsbG8=\x07".to_vec());
    // A payload that is not base64 leaves the clipboard alone.
    run(&mut screen, b"\x1b]52;c;!!!\x07");
    assert_eq!(
        screen.get_clipboard(termcore::modes::ClipboardType::Clipboard),
        Some(b"hello".to_vec()),
    );
}

#[test]
fn save_and_restore_cursor() {
    let mut screen = Screen::new(P(10, 10));
    run(&mut screen, b"\x1b[4;7H\x1b7\x1b[1;1H\x1b8");
    assert_eq!(screen.cursor, P(6, 3));
    // Restore without any save homes the cursor.
    let mut fresh = Screen::new(P(10, 10));
    run(&mut fresh, b"\x1b[4;7H\x1b8");
    assert_eq!(fresh.cursor, P(0, 0));
}

#[test]
fn scrolling_region_and_line_feed() {
    let mut screen = Screen::new(P(4, 4));
    run(&mut screen, b"A\r\nB\r\nC\r\nD");
    assert_eq!(screen.cell(P(0, 0)).unwrap().ch, Some('A'));
    // Confine scrolling to rows 1..=2 (1-based 2..3) and feed at its bottom.
    run(&mut screen, b"\x1b[2;3r\x1b[3;1H\n");
    // Row 1 now holds what row 2 held; row 2 is blank; rows 0 and 3 stay.
    assert_eq!(screen.cell(P(0, 0)).unwrap().ch, Some('A'));
    assert_eq!(screen.cell(P(0, 1)).unwrap().ch, Some('C'));
    assert_eq!(screen.cell(P(0, 2)).unwrap().ch, None);
    assert_eq!(screen.cell(P(0, 3)).unwrap().ch, Some('D'));
}

#[test]
fn erase_and_delete_chars() {
    let mut screen = Screen::new(P(8, 2));
    run(&mut screen, b"abcdef\r");
    run(&mut screen, b"\x1b[2X");
    assert_eq!(screen.cell(P(0, 0)).unwrap().ch, None);
    assert_eq!(screen.cell(P(1, 0)).unwrap().ch, None);
    assert_eq!(screen.cell(P(2, 0)).unwrap().ch, Some('c'));
    run(&mut screen, b"\x1b[2P");
    assert_eq!(screen.cell(P(0, 0)).unwrap().ch, Some('c'));
    assert_eq!(screen.cell(P(1, 0)).unwrap().ch, Some('d'));
}

#[test]
fn insert_blanks_shifts_right() {
    let mut screen = Screen::new(P(6, 2));
    run(&mut screen, b"abcd\r\x1b[2@");
    assert_eq!(screen.cell(P(0, 0)).unwrap().ch, None);
    assert_eq!(screen.cell(P(1, 0)).unwrap().ch, None);
    assert_eq!(screen.cell(P(2, 0)).unwrap().ch, Some('a'));
    assert_eq!(screen.cell(P(3, 0)).unwrap().ch, Some('b'));
}

#[test]
fn repeat_preceding_char() {
    let mut screen = Screen::new(P(10, 2));
    run(&mut screen, b"x\x1b[3b");
    for x in 0..4 {
        assert_eq!(screen.cell(P(x, 0)).unwrap().ch, Some('x'));
    }
    assert_eq!(screen.cell(P(4, 0)).unwrap().ch, None);
}

#[test]
fn modes_and_cursor_style() {
    let mut screen = Screen::new(P(10, 3));
    assert!(screen.modes.show_cursor);
    run(&mut screen, b"\x1b[?25l");
    assert!(!screen.modes.show_cursor);
    run(&mut screen, b"\x1b[?25h\x1b[4h");
    assert!(screen.modes.show_cursor);
    assert!(screen.modes.insert);
    run(&mut screen, b"\x1b[3 q");
    assert_eq!(screen.cursor_style, CursorStyle::BlinkingUnderline);
    run(&mut screen, b"\x1b]50;CursorShape=5\x07");
    assert_eq!(screen.cursor_style, CursorStyle::BlinkingBar);
}

#[test]
fn title_stack() {
    let mut screen = Screen::new(P(10, 3));
    run(&mut screen, b"\x1b]2;one\x07\x1b[22t\x1b]2;two\x07");
    assert_eq!(screen.title, Some(b"two".to_vec()));
    run(&mut screen, b"\x1b[23t");
    assert_eq!(screen.title, Some(b"one".to_vec()));
}

#[test]
fn osc_colors_set_query_reset() {
    let mut screen = Screen::new(P(10, 3));
    // No override set: a query writes nothing.
    let out = run(&mut screen, b"\x1b]10;?\x07");
    assert_eq!(out, Vec::<u8>::new());
    run(&mut screen, b"\x1b]10;#102030\x07");
    let reply = run(&mut screen, b"\x1b]10;?\x07");
    assert_eq!(reply, b"\x1b]10;rgb:1010/2020/3030\x07".to_vec());
    run(&mut screen, b"\x1b]4;17;rgb:01/02/03\x07");
    assert_eq!(
        screen.get_color(17),
        Some(termcore::color::RgbColor { r: 1, g: 2, b: 3 }),
    );
    run(&mut screen, b"\x1b]104;17\x07");
    assert_eq!(screen.get_color(17), None);
    run(&mut screen, b"\x1b]110\x07");
    assert_eq!(
        screen.get_special_color(termcore::color::SpecialColor::Foreground),
        None,
    );
}

#[test]
fn wrap_at_last_column() {
    let mut screen = Screen::new(P(3, 3));
    run(&mut screen, b"abcd");
    assert_eq!(screen.cell(P(2, 0)).unwrap().ch, Some('c'));
    assert_eq!(screen.cell(P(0, 1)).unwrap().ch, Some('d'));
    assert_eq!(screen.cursor, P(1, 1));
    // With line wrap off the last column is overwritten instead.
    let mut fixed = Screen::new(P(3, 3));
    run(&mut fixed, b"\x1b[?7labcd");
    assert_eq!(fixed.cell(P(2, 0)).unwrap().ch, Some('d'));
    assert_eq!(fixed.cursor, P(2, 0));
}

#[test]
fn backspace_erases_and_moves() {
    let mut screen = Screen::new(P(5, 2));
    run(&mut screen, b"ab\x08");
    assert_eq!(screen.cursor, P(1, 0));
    assert_eq!(screen.cell(P(2, 0)).unwrap().ch, None);
    // At the origin the cursor stays.
    let mut s2 = Screen::new(P(5, 2));
    run(&mut s2, b"\x08");
    assert_eq!(s2.cursor, P(0, 0));
}

#[test]
fn tabstops_walk() {
    let mut screen = Screen::new(P(20, 2));
    // Set tabstops at columns 4 and 9.
    run(&mut screen, b"\x1b[1;5H\x1bH\x1b[1;10H\x1bH\x1b[1;1H");
    run(&mut screen, b"\t");
    assert_eq!(screen.cursor, P(4, 0));
    run(&mut screen, b"\t");
    assert_eq!(screen.cursor, P(9, 0));
    // Without further stops a tab runs to the last column.
    run(&mut screen, b"\t");
    assert_eq!(screen.cursor, P(19, 0));
    run(&mut screen, b"\x1b[2Z");
    assert_eq!(screen.cursor, P(4, 0));
    run(&mut screen, b"\x1b[3g\x1b[1;1H\t");
    assert_eq!(screen.cursor, P(19, 0));
}

#[test]
fn alignment_test_and_reset() {
    let mut screen = Screen::new(P(4, 2));
    run(&mut screen, b"\x1b#8");
    assert_eq!(screen.cell(P(3, 1)).unwrap().ch, Some('E'));
    run(&mut screen, b"\x1b]2;t\x07\x1bc");
    assert_eq!(screen.cell(P(3, 1)).unwrap().ch, None);
    assert_eq!(screen.cursor, P(0, 0));
    // Titles survive a terminal reset.
    assert_eq!(screen.title, Some(b"t".to_vec()));
}

#[test]
fn reverse_index_scrolls_at_top() {
    let mut screen = Screen::new(P(4, 3));
    run(&mut screen, b"A\x1b[1;1H\x1bM");
    assert_eq!(screen.cell(P(0, 1)).unwrap().ch, Some('A'));
    assert_eq!(screen.cell(P(0, 0)).unwrap().ch, None);
}

#[test]
fn render_attributes_sequences() {
    let mut r = Renderer::new();
    r.render_attributes(&Attributes::default());
    assert_eq!(r.out, b"\x1b[0;39;49m".to_vec());
    let mut a = Attributes::default();
    a.flags.bold = true;
    a.fg = Color::Indexed(1);
    a.bg = Color::Indexed(64);
    let mut r2 = Renderer::new();
    r2.render_attributes(&a);
    assert_eq!(r2.out, b"\x1b[0;1;31;48;5;64m".to_vec());
    let mut r3 = Renderer::new();
    let mut b = Attributes::default();
    b.fg = Color::Rgb(termcore::color::RgbColor { r: 1, g: 2, b: 3 });
    r3.render_attributes(&b);
    assert_eq!(r3.out, b"\x1b[0;38;2;1;2;3;49m".to_vec());
}

#[test]
fn task_decisions() {
    let s = TaskState::start();
    assert_eq!(next_action(&s), TaskAction::Notify);
    let (s, a) = on_event(s, TaskEvent::NotifySent);
    assert_eq!(a, TaskAction::PollChild);
    let (s, a) = on_event(s, TaskEvent::ChildRunning);
    assert_eq!(a, TaskAction::ReadPty);
    let (s, a) = on_event(s, TaskEvent::ReadDone);
    assert_eq!(a, TaskAction::Notify);
    assert!(s.must_notify);
    let (s, a) = on_event(s, TaskEvent::ReadFailed);
    assert_eq!(a, TaskAction::KillAndStop);
    assert!(!s.running);
    assert_eq!(next_action(&s), TaskAction::Stop);
}

#[test]
fn bell_changes_nothing() {
    let mut with_bell = Screen::new(P(6, 2));
    let out = run(&mut with_bell, b"x\x07y");
    let mut plain = Screen::new(P(6, 2));
    run(&mut plain, b"xy");
    assert_eq!(out, Vec::<u8>::new());
    assert_eq!(with_bell.cursor, plain.cursor);
    for x in 0..6 {
        assert_eq!(with_bell.cell(P(x, 0)), plain.cell(P(x, 0)));
    }
}

#[test]
fn screen_frame_bytes() {
    let mut screen = Screen::new(P(2, 1));
    run(&mut screen, b"A");
    let frame = render_screen_frame(&screen);
    assert_eq!(
        frame,
        b"\x1b[2J\x1b[3J\x1b[1;1H\x1b[0m+--+\r\n|\x1b[0;39;49mA \x1b[0m|\r\n+--+\r\n\x1b[2;3H"
            .to_vec(),
    );
}
