//! The dispatch adapter: parser events become screen operations and
//! response bytes.
//!
//! `spec_perform` is the complete contract: for every event it says how the
//! screen model changes, what the preceding-character slot becomes, and
//! which bytes are written back toward the child. `Processor::advance`
//! realizes the fold of the parser step and this dispatch over a byte
//! slice.

use vstd::prelude::*;
use crate::b64::{base64_decode_of, base64_of, decode_base64, encode_base64};
use crate::charset::{CharsetIndex, StandardCharset};
use crate::color::{RgbColor, SpecialColor, spec_parse_rgb};
use crate::modes::{ClearLineMode, ClearScreenMode, ClipboardType, CursorStyle, TerminalMode,
    spec_clipboard_from, spec_cursor_style_from, spec_terminal_mode_from};
use crate::parser::{Event, EventV, Parser, ParserModel, lemma_parser_byte_split, opt_event_view,
    spec_run, spec_step};
use crate::point::Point;
use crate::screen::{
    Screen, ScreenModel, spec_alignment_test, spec_clear_line, spec_clear_screen,
    spec_clipboard_of, spec_configure_charset, spec_delete_chars, spec_delete_lines,
    spec_erase_chars, spec_goto, spec_goto_column, spec_goto_line, spec_insert_blank,
    spec_insert_blank_lines, spec_move_backward, spec_move_backward_tabs, spec_move_down,
    spec_move_forward, spec_move_up, spec_put_backspace, spec_put_char, spec_put_cr, spec_put_lf,
    spec_put_tab, spec_reset_state, spec_restore_cursor, spec_restore_title, spec_reverse_index,
    spec_save_cursor, spec_save_title, spec_scroll_down, spec_scroll_up, spec_set_active_charset,
    spec_set_clipboard, spec_set_color, spec_set_cursor_style, spec_set_keypad_application_mode,
    spec_set_mode, spec_set_path, spec_set_scrolling_region, spec_set_special_color,
    spec_set_title, spec_sgr_attribute, spec_special_color_of, spec_reset_color,
    spec_reset_all_colors,
};
use crate::sgr::{Attribute, parse_attributes, spec_parse_attributes};
use crate::text::{dec_bounded, dec_of, hex2_of, parse_dec_bounded, push_dec};
use crate::color::push_hex2;

verus! {

// ---------------------------------------------------------------------------
// CSI argument reading.
// ---------------------------------------------------------------------------

/// The value of parameter `idx`, with `def` substituted for a missing,
/// zero, or negative parameter. Motion and counting sequences read their
/// counts with `def == 1`; selector sequences with `def == 0`.
pub open spec fn csi_arg(params: Seq<i64>, idx: int, def: int) -> int {
    if 0 <= idx < params.len() && params[idx] > 0 {
        params[idx] as int
    } else {
        def
    }
}

/// Clamp a non-negative argument into `usize`.
pub open spec fn as_count(v: int) -> usize {
    if v > usize::MAX {
        usize::MAX as usize
    } else if v < 0 {
        0
    } else {
        v as usize
    }
}

/// A parameter that is absent or zero reads as the default: 1 for motion
/// and counting sequences, 0 for selector sequences.
pub proof fn lemma_csi_default_substitution(params: Seq<i64>, idx: int)
    requires
        idx >= params.len() || (0 <= idx && params[idx] == 0),
    ensures
        csi_arg(params, idx, 1) == 1,
        csi_arg(params, idx, 0) == 0,
{
}

// ---------------------------------------------------------------------------
// Response byte strings.
// ---------------------------------------------------------------------------

/// Reply to the primary device attributes query.
pub open spec fn primary_da_reply() -> Seq<u8> {
    seq![0x1bu8, 0x5b, 0x3f, 0x31, 0x3b, 0x32, 0x63]
}

/// Reply to the secondary device attributes query.
pub open spec fn secondary_da_reply() -> Seq<u8> {
    seq![0x1bu8, 0x5b, 0x3e, 0x38, 0x34, 0x3b, 0x30, 0x3b, 0x30, 0x63]
}

/// Reply to a device status report: all fine.
pub open spec fn dsr_ok_reply() -> Seq<u8> {
    seq![0x1bu8, 0x5b, 0x30, 0x6e]
}

/// Reply to a cursor position report: `ESC [ y ; x R`.
pub open spec fn cursor_report(cursor: Point) -> Seq<u8> {
    seq![0x1bu8, 0x5b] + dec_of(cursor.y as int) + seq![0x3bu8] + dec_of(cursor.x as int) + seq![
        0x52u8,
    ]
}

/// The terminator matching the one that opened an OSC request.
pub open spec fn osc_term(bell: bool) -> Seq<u8> {
    if bell {
        seq![0x07u8]
    } else {
        seq![0x1bu8, 0x5c]
    }
}

/// An OSC color report: `ESC ] code ; rgb:rrrr/gggg/bbbb term`, each channel
/// byte's two hex digits doubled.
pub open spec fn osc_color_reply(code: int, c: RgbColor, bell: bool) -> Seq<u8> {
    seq![0x1bu8, 0x5d] + dec_of(code) + seq![0x3bu8, 0x72, 0x67, 0x62, 0x3a] + hex2_of(c.r)
        + hex2_of(c.r) + seq![0x2fu8] + hex2_of(c.g) + hex2_of(c.g) + seq![0x2fu8] + hex2_of(c.b)
        + hex2_of(c.b) + osc_term(bell)
}

/// An OSC clipboard report: `ESC ] 52 ; kind ; base64 term`.
pub open spec fn osc_clipboard_reply(kind: u8, data: Seq<u8>, bell: bool) -> Seq<u8> {
    seq![0x1bu8, 0x5d, 0x35, 0x32, 0x3b] + seq![kind] + seq![0x3bu8] + base64_of(data) + osc_term(
        bell,
    )
}

// ---------------------------------------------------------------------------
// Byte-string helpers for OSC payloads.
// ---------------------------------------------------------------------------

pub open spec fn is_ws(b: u8) -> bool {
    b == 0x20 || (0x09 <= b && b <= 0x0d)
}

pub open spec fn trim_start(s: Seq<u8>) -> Seq<u8>
    decreases s.len(),
{
    if s.len() > 0 && is_ws(s[0]) {
        trim_start(s.skip(1))
    } else {
        s
    }
}

pub open spec fn trim_end(s: Seq<u8>) -> Seq<u8>
    decreases s.len(),
{
    if s.len() > 0 && is_ws(s.last()) {
        trim_end(s.drop_last())
    } else {
        s
    }
}

/// `s` without leading and trailing ASCII whitespace.
pub open spec fn trimmed(s: Seq<u8>) -> Seq<u8> {
    trim_end(trim_start(s))
}

/// The parameters from `from` on, joined with `;`.
pub open spec fn join_params(params: Seq<Seq<u8>>, from: int) -> Seq<u8>
    decreases params.len() - from,
{
    if from < 0 || from >= params.len() {
        Seq::empty()
    } else if from + 1 == params.len() {
        params[from]
    } else {
        params[from] + seq![0x3bu8] + join_params(params, from + 1)
    }
}

// ---------------------------------------------------------------------------
// Iterated screen transitions.
// ---------------------------------------------------------------------------

pub open spec fn spec_repeat_char(m: ScreenModel, ch: char, n: nat) -> ScreenModel
    decreases n,
{
    if n == 0 {
        m
    } else {
        spec_repeat_char(spec_put_char(m, ch), ch, (n - 1) as nat)
    }
}

pub open spec fn spec_apply_attrs(m: ScreenModel, attrs: Seq<Attribute>) -> ScreenModel
    decreases attrs.len(),
{
    if attrs.len() == 0 {
        m
    } else {
        spec_apply_attrs(spec_sgr_attribute(m, attrs[0]), attrs.skip(1))
    }
}

/// Apply a `h`/`l` sequence: each recognized selector switches its mode;
/// unknown selectors are skipped.
pub open spec fn spec_set_modes(
    m: ScreenModel,
    inter: Option<u8>,
    params: Seq<i64>,
    value: bool,
) -> ScreenModel
    decreases params.len(),
{
    if params.len() == 0 {
        m
    } else {
        let m1 = match spec_terminal_mode_from(inter, params[0] as int) {
            Some(mode) => spec_set_mode(m, mode, value),
            None => m,
        };
        spec_set_modes(m1, inter, params.skip(1), value)
    }
}

/// Reset each indexed color named by the remaining OSC parameters;
/// unreadable indices are skipped.
pub open spec fn spec_reset_listed_colors(m: ScreenModel, params: Seq<Seq<u8>>, k: int) -> ScreenModel
    decreases params.len() - k,
{
    if k < 0 || k >= params.len() {
        m
    } else {
        let m1 = match dec_bounded(params[k], 255) {
            Some(v) => spec_reset_color(m, v as u8),
            None => m,
        };
        spec_reset_listed_colors(m1, params, k + 1)
    }
}

/// The OSC 10/11/12 walk: parameter `k` addresses color `code`; `?` queries
/// (answered only when an override is set), other values set the color; an
/// unreadable value stops the walk; codes past the cursor color stop it.
pub open spec fn spec_osc_special(
    m: ScreenModel,
    code: int,
    params: Seq<Seq<u8>>,
    k: int,
    bell: bool,
) -> (ScreenModel, Seq<u8>)
    decreases params.len() - k,
{
    if k < 0 || k >= params.len() || code > 12 {
        (m, Seq::empty())
    } else {
        let which = if code == 10 {
            SpecialColor::Foreground
        } else if code == 11 {
            SpecialColor::Background
        } else {
            SpecialColor::Cursor
        };
        if params[k] == seq![0x3fu8] {
            let out = match spec_special_color_of(m, which) {
                Some(c) => osc_color_reply(code, c, bell),
                None => Seq::empty(),
            };
            let r = spec_osc_special(m, code + 1, params, k + 1, bell);
            (r.0, out + r.1)
        } else {
            match spec_parse_rgb(params[k]) {
                Some(c) => spec_osc_special(
                    spec_set_special_color(m, which, Some(c)),
                    code + 1,
                    params,
                    k + 1,
                    bell,
                ),
                None => (m, Seq::empty()),
            }
        }
    }
}

// ---------------------------------------------------------------------------
// The dispatch itself, at the model level.
// ---------------------------------------------------------------------------

/// A C0 control: bell, backspace, tab, line feed, carriage return, and the
/// two charset shifts; everything else is ignored. The bell is an outward
/// side effect and leaves the screen unchanged.
pub open spec fn spec_execute(m: ScreenModel, b: u8) -> ScreenModel {
    if b == 0x07 {
        m
    } else if b == 0x08 {
        spec_put_backspace(m, 1)
    } else if b == 0x09 {
        spec_put_tab(m, 1)
    } else if b == 0x0a || b == 0x0b || b == 0x0c {
        spec_put_lf(m)
    } else if b == 0x0d {
        spec_put_cr(m)
    } else if b == 0x0e {
        spec_set_active_charset(m, CharsetIndex::G1)
    } else if b == 0x0f {
        spec_set_active_charset(m, CharsetIndex::G0)
    } else {
        m
    }
}

/// An ESC sequence. `ESC c` also forgets the preceding character.
pub open spec fn spec_esc_dispatch(
    m: ScreenModel,
    pc: Option<char>,
    intermediates: Seq<u8>,
    byte: u8,
) -> (ScreenModel, Option<char>) {
    let i0: Option<u8> = if intermediates.len() > 0 {
        Some(intermediates[0])
    } else {
        None
    };
    if byte == 0x30 && i0 == Some(0x28u8) {
        (spec_configure_charset(m, CharsetIndex::G0, StandardCharset::Special), pc)
    } else if byte == 0x30 && i0 == Some(0x29u8) {
        (spec_configure_charset(m, CharsetIndex::G1, StandardCharset::Special), pc)
    } else if byte == 0x42 && i0 == Some(0x28u8) {
        (spec_configure_charset(m, CharsetIndex::G0, StandardCharset::Ascii), pc)
    } else if byte == 0x42 && i0 == Some(0x29u8) {
        (spec_configure_charset(m, CharsetIndex::G1, StandardCharset::Ascii), pc)
    } else if byte == 0x37 && i0 is None {
        (spec_save_cursor(m), pc)
    } else if byte == 0x38 && i0 is None {
        (spec_restore_cursor(m), pc)
    } else if byte == 0x38 && i0 == Some(0x23u8) {
        (spec_alignment_test(m), pc)
    } else if byte == 0x3d && i0 is None {
        (spec_set_keypad_application_mode(m, true), pc)
    } else if byte == 0x3e && i0 is None {
        (spec_set_keypad_application_mode(m, false), pc)
    } else if byte == 0x44 && i0 is None {
        (spec_put_lf(m), pc)
    } else if byte == 0x45 && i0 is None {
        (spec_put_cr(spec_put_lf(m)), pc)
    } else if byte == 0x48 && i0 is None {
        (
            ScreenModel {
                tabstops: if m.cursor.x < m.tabstops.len() {
                    m.tabstops.update(m.cursor.x as int, true)
                } else {
                    m.tabstops
                },
                ..m
            },
            pc,
        )
    } else if byte == 0x4d && i0 is None {
        (spec_reverse_index(m), pc)
    } else if byte == 0x63 && i0 is None {
        (spec_reset_state(m), None)
    } else {
        (m, pc)
    }
}

/// A CSI sequence: the complete action table. Sequences marked ignored or
/// carrying more than one intermediate are skipped.
#[verifier::opaque]
pub open spec fn spec_csi_dispatch(
    m: ScreenModel,
    pc: Option<char>,
    params: Seq<i64>,
    intermediates: Seq<u8>,
    ignore: bool,
    action: char,
) -> (ScreenModel, Seq<u8>) {
    if ignore || intermediates.len() > 1 {
        (m, Seq::empty())
    } else {
        let i0: Option<u8> = if intermediates.len() > 0 {
            Some(intermediates[0])
        } else {
            None
        };
        let n1 = as_count(csi_arg(params, 0, 1));
        if i0 is None && action == '@' {
            (spec_insert_blank(m, n1), Seq::empty())
        } else if i0 is None && action == 'A' {
            (spec_move_up(m, n1), Seq::empty())
        } else if i0 is None && (action == 'B' || action == 'e') {
            (spec_move_down(m, n1), Seq::empty())
        } else if i0 is None && (action == 'C' || action == 'a') {
            (spec_move_forward(m, n1), Seq::empty())
        } else if i0 is None && action == 'D' {
            (spec_move_backward(m, n1), Seq::empty())
        } else if i0 is None && action == 'E' {
            (spec_put_cr(spec_move_down(m, n1)), Seq::empty())
        } else if i0 is None && action == 'F' {
            (spec_put_cr(spec_move_up(m, n1)), Seq::empty())
        } else if i0 is None && (action == 'G' || action == '`') {
            (spec_goto_column(m, (n1 - 1) as usize), Seq::empty())
        } else if i0 is None && (action == 'H' || action == 'f') {
            (
                spec_goto(
                    m,
                    (n1 - 1) as usize,
                    (as_count(csi_arg(params, 1, 1)) - 1) as usize,
                ),
                Seq::empty(),
            )
        } else if i0 is None && action == 'J' {
            let sel = csi_arg(params, 0, 0);
            if sel == 0 {
                (spec_clear_screen(m, ClearScreenMode::Below), Seq::empty())
            } else if sel == 1 {
                (spec_clear_screen(m, ClearScreenMode::Above), Seq::empty())
            } else if sel == 2 {
                (spec_clear_screen(m, ClearScreenMode::All), Seq::empty())
            } else if sel == 3 {
                (spec_clear_screen(m, ClearScreenMode::Saved), Seq::empty())
            } else {
                (m, Seq::empty())
            }
        } else if i0 is None && action == 'K' {
            let sel = csi_arg(params, 0, 0);
            if sel == 0 {
                (spec_clear_line(m, ClearLineMode::Right), Seq::empty())
            } else if sel == 1 {
                (spec_clear_line(m, ClearLineMode::Left), Seq::empty())
            } else if sel == 2 {
                (spec_clear_line(m, ClearLineMode::All), Seq::empty())
            } else {
                (m, Seq::empty())
            }
        } else if i0 is None && action == 'L' {
            (spec_insert_blank_lines(m, n1), Seq::empty())
        } else if i0 is None && action == 'M' {
            (spec_delete_lines(m, n1), Seq::empty())
        } else if i0 is None && action == 'P' {
            (spec_delete_chars(m, n1), Seq::empty())
        } else if i0 is None && action == 'S' {
            (spec_scroll_up(m, n1), Seq::empty())
        } else if i0 is None && action == 'T' {
            (spec_scroll_down(m, n1), Seq::empty())
        } else if i0 is None && action == 'X' {
            (spec_erase_chars(m, n1), Seq::empty())
        } else if i0 is None && action == 'Z' {
            (spec_move_backward_tabs(m, n1 as nat), Seq::empty())
        } else if i0 is None && action == 'b' {
            match pc {
                Some(ch) => (spec_repeat_char(m, ch, n1 as nat), Seq::empty()),
                None => (m, Seq::empty()),
            }
        } else if i0 is None && action == 'c' {
            if csi_arg(params, 0, 0) == 0 {
                (m, primary_da_reply())
            } else {
                (m, Seq::empty())
            }
        } else if i0 == Some(0x3eu8) && action == 'c' {
            if csi_arg(params, 0, 0) == 0 {
                (m, secondary_da_reply())
            } else {
                (m, Seq::empty())
            }
        } else if i0 is None && action == 'd' {
            (spec_goto_line(m, (n1 - 1) as usize), Seq::empty())
        } else if i0 is None && action == 'g' {
            let sel = csi_arg(params, 0, 0);
            if sel == 0 {
                (
                    ScreenModel {
                        tabstops: if m.cursor.x < m.tabstops.len() {
                            m.tabstops.update(m.cursor.x as int, false)
                        } else {
                            m.tabstops
                        },
                        ..m
                    },
                    Seq::empty(),
                )
            } else if sel == 3 {
                (
                    ScreenModel { tabstops: Seq::new(m.tabstops.len(), |i: int| false), ..m },
                    Seq::empty(),
                )
            } else {
                (m, Seq::empty())
            }
        } else if action == 'h' {
            (spec_set_modes(m, i0, params, true), Seq::empty())
        } else if action == 'l' {
            (spec_set_modes(m, i0, params, false), Seq::empty())
        } else if i0 is None && action == 'm' {
            if params.len() == 0 {
                (spec_sgr_attribute(m, Attribute::Reset), Seq::empty())
            } else {
                (spec_apply_attrs(m, spec_parse_attributes(params)), Seq::empty())
            }
        } else if i0 is None && action == 'n' {
            let sel = csi_arg(params, 0, 0);
            if sel == 5 {
                (m, dsr_ok_reply())
            } else if sel == 6 {
                (m, cursor_report(m.cursor))
            } else {
                (m, Seq::empty())
            }
        } else if i0 == Some(0x20u8) && action == 'q' {
            match spec_cursor_style_from(csi_arg(params, 0, 0)) {
                Some(style) => (spec_set_cursor_style(m, style), Seq::empty()),
                None => (m, Seq::empty()),
            }
        } else if i0 is None && action == 'r' {
            (
                spec_set_scrolling_region(
                    m,
                    n1,
                    as_count(csi_arg(params, 1, m.size.y as int)),
                ),
                Seq::empty(),
            )
        } else if i0 is None && action == 's' {
            (spec_save_cursor(m), Seq::empty())
        } else if i0 is None && action == 't' {
            let sel = csi_arg(params, 0, 0);
            if sel == 22 {
                (spec_save_title(m), Seq::empty())
            } else if sel == 23 {
                (spec_restore_title(m), Seq::empty())
            } else {
                (m, Seq::empty())
            }
        } else if i0 is None && action == 'u' {
            (spec_restore_cursor(m), Seq::empty())
        } else {
            (m, Seq::empty())
        }
    }
}

/// An OSC string: titles, palette and special colors, working directory,
/// cursor shape, and the clipboard side channel. Malformed payloads leave
/// the screen alone.
#[verifier::opaque]
pub open spec fn spec_osc_dispatch(m: ScreenModel, params: Seq<Seq<u8>>, bell: bool) -> (
    ScreenModel,
    Seq<u8>,
) {
    if params.len() == 0 || params[0].len() == 0 {
        (m, Seq::empty())
    } else {
        match dec_bounded(params[0], 0xffff_ffff) {
            None => (m, Seq::empty()),
            Some(num) => {
                if num == 0 || num == 2 {
                    if params.len() > 1 {
                        (spec_set_title(m, trimmed(join_params(params, 1))), Seq::empty())
                    } else {
                        (m, Seq::empty())
                    }
                } else if num == 4 {
                    if params.len() == 3 {
                        match (dec_bounded(params[1], 255), spec_parse_rgb(params[2])) {
                            (Some(idx), Some(c)) => (
                                spec_set_color(m, idx as u8, c),
                                Seq::empty(),
                            ),
                            _ => (m, Seq::empty()),
                        }
                    } else {
                        (m, Seq::empty())
                    }
                } else if num == 7 {
                    if params.len() > 1 {
                        (spec_set_path(m, trimmed(join_params(params, 1))), Seq::empty())
                    } else {
                        (m, Seq::empty())
                    }
                } else if num == 10 || num == 11 || num == 12 {
                    if params.len() >= 2 {
                        spec_osc_special(m, num as int, params, 1, bell)
                    } else {
                        (m, Seq::empty())
                    }
                } else if num == 50 {
                    (spec_osc_cursor_shape(m, params), Seq::empty())
                } else if num == 52 {
                    spec_osc_clipboard(m, params, bell)
                } else if num == 104 {
                    if params.len() == 1 {
                        (spec_reset_all_colors(m), Seq::empty())
                    } else {
                        (spec_reset_listed_colors(m, params, 1), Seq::empty())
                    }
                } else if num == 110 {
                    (spec_set_special_color(m, SpecialColor::Foreground, None), Seq::empty())
                } else if num == 111 {
                    (spec_set_special_color(m, SpecialColor::Background, None), Seq::empty())
                } else if num == 112 {
                    (spec_set_special_color(m, SpecialColor::Cursor, None), Seq::empty())
                } else {
                    (m, Seq::empty())
                }
            },
        }
    }
}

/// The `CursorShape=N` prefix of an OSC 50 payload.
pub open spec fn cursor_shape_prefix() -> Seq<u8> {
    seq![
        'C' as u8,
        'u' as u8,
        'r' as u8,
        's' as u8,
        'o' as u8,
        'r' as u8,
        'S' as u8,
        'h' as u8,
        'a' as u8,
        'p' as u8,
        'e' as u8,
        '=' as u8,
    ]
}

pub open spec fn spec_osc_cursor_shape(m: ScreenModel, params: Seq<Seq<u8>>) -> ScreenModel {
    if params.len() >= 2 && params[1].len() >= 13 && params[1].take(12) == cursor_shape_prefix() {
        match dec_bounded(params[1].skip(12), 255) {
            Some(v) => match spec_cursor_style_from(v) {
                Some(style) => spec_set_cursor_style(m, style),
                None => m,
            },
            None => m,
        }
    } else {
        m
    }
}

pub open spec fn spec_osc_clipboard(m: ScreenModel, params: Seq<Seq<u8>>, bell: bool) -> (
    ScreenModel,
    Seq<u8>,
) {
    if params.len() != 3 {
        (m, Seq::empty())
    } else {
        let kind_byte: u8 = if params[1].len() > 0 {
            params[1][0]
        } else {
            0x63
        };
        match spec_clipboard_from(kind_byte) {
            None => (m, Seq::empty()),
            Some(kind) => {
                if params[2] == seq![0x3fu8] {
                    match spec_clipboard_of(m, kind) {
                        Some(data) => (m, osc_clipboard_reply(kind_byte, data, bell)),
                        None => (m, Seq::empty()),
                    }
                } else {
                    match base64_decode_of(params[2]) {
                        Some(data) => (spec_set_clipboard(m, kind, data), Seq::empty()),
                        None => (m, Seq::empty()),
                    }
                }
            },
        }
    }
}

/// One event's effect: the new screen, the new preceding character, and the
/// bytes written back toward the child.
#[verifier::opaque]
pub open spec fn spec_perform(m: ScreenModel, pc: Option<char>, ev: EventV) -> (
    ScreenModel,
    Option<char>,
    Seq<u8>,
) {
    match ev {
        EventV::Print(c) => (spec_put_char(m, c), Some(c), Seq::empty()),
        EventV::Execute(b) => (spec_execute(m, b), pc, Seq::empty()),
        EventV::EscDispatch { intermediates, ignore, byte } => {
            let r = spec_esc_dispatch(m, pc, intermediates, byte);
            (r.0, r.1, Seq::empty())
        },
        EventV::CsiDispatch { params, intermediates, ignore, action } => {
            let r = spec_csi_dispatch(m, pc, params, intermediates, ignore, action);
            (r.0, pc, r.1)
        },
        EventV::OscDispatch { params, bell_terminated } => {
            let r = spec_osc_dispatch(m, params, bell_terminated);
            (r.0, pc, r.1)
        },
        EventV::Hook { params, intermediates, ignore, action } => (m, pc, Seq::empty()),
        EventV::Put(b) => (m, pc, Seq::empty()),
        EventV::Unhook => (m, pc, Seq::empty()),
    }
}

/// Folding `spec_perform` over a sequence of events.
pub open spec fn spec_apply_events(m: ScreenModel, pc: Option<char>, evs: Seq<EventV>) -> (
    ScreenModel,
    Option<char>,
    Seq<u8>,
)
    decreases evs.len(),
{
    if evs.len() == 0 {
        (m, pc, Seq::empty())
    } else {
        let r1 = spec_perform(m, pc, evs[0]);
        let r2 = spec_apply_events(r1.0, r1.1, evs.skip(1));
        (r2.0, r2.1, r1.2 + r2.2)
    }
}

/// Applying a concatenation of event lists is applying one after the other.
pub proof fn lemma_apply_events_concat(
    m: ScreenModel,
    pc: Option<char>,
    e1: Seq<EventV>,
    e2: Seq<EventV>,
)
    ensures
        ({
            let full = spec_apply_events(m, pc, e1 + e2);
            let first = spec_apply_events(m, pc, e1);
            let second = spec_apply_events(first.0, first.1, e2);
            full.0 == second.0 && full.1 == second.1 && full.2 == first.2 + second.2
        }),
    decreases e1.len(),
{
    if e1.len() == 0 {
        assert(e1 + e2 =~= e2);
        assert(spec_apply_events(m, pc, e1).2 + spec_apply_events(m, pc, e2).2 =~= spec_apply_events(
            m,
            pc,
            e2,
        ).2);
    } else {
        let r1 = spec_perform(m, pc, e1[0]);
        assert((e1 + e2)[0] == e1[0]);
        assert((e1 + e2).skip(1) =~= e1.skip(1) + e2);
        lemma_apply_events_concat(r1.0, r1.1, e1.skip(1), e2);
        let fa = spec_apply_events(r1.0, r1.1, e1.skip(1));
        let fb = spec_apply_events(fa.0, fa.1, e2);
        assert(spec_apply_events(m, pc, e1 + e2).2 =~= spec_apply_events(m, pc, e1).2 + fb.2);
    }
}

// ---------------------------------------------------------------------------
// Executable dispatch.
// ---------------------------------------------------------------------------

/// Per-stream dispatcher state: the last printable character, used by the
/// repeat sequence.
pub struct ProcessorState {
    pub preceding_char: Option<char>,
}

impl Default for ProcessorState {
    fn default() -> (r: Self)
        ensures
            r.preceding_char is None,
    {
        ProcessorState { preceding_char: None }
    }
}

/// Append a byte slice.
fn push_bytes(out: &mut Vec<u8>, s: &[u8])
    ensures
        final(out)@ == old(out)@ + s@,
{
    let mut i: usize = 0;
    while i < s.len()
        invariant
            i <= s@.len(),
            out@ =~= old(out)@ + s@.take(i as int),
        decreases s@.len() - i,
    {
        out.push(s[i]);
        proof {
            assert(out@ =~= old(out)@ + s@.take(i + 1));
        }
        i += 1;
    }
    proof {
        assert(out@ =~= old(out)@ + s@);
    }
}

/// Read a count argument: missing, zero, or negative values give `def`.
fn count_arg(params: &[i64], idx: usize, def: usize) -> (r: usize)
    ensures
        r == as_count(csi_arg(params@, idx as int, def as int)),
{
    if idx < params.len() && params[idx] > 0 {
        let v = params[idx];
        if (v as u64) > (usize::MAX as u64) {
            usize::MAX
        } else {
            v as usize
        }
    } else {
        def
    }
}

/// Read a selector argument: missing, zero, or negative values give zero.
fn selector_arg(params: &[i64], idx: usize) -> (r: usize)
    ensures
        r == as_count(csi_arg(params@, idx as int, 0)),
{
    count_arg(params, idx, 0)
}

proof fn lemma_trim_start_skip(s: Seq<u8>, lo: int)
    requires
        0 <= lo <= s.len(),
        forall|j: int| 0 <= j < lo ==> is_ws(s[j]),
        lo == s.len() || !is_ws(s[lo]),
    ensures
        trim_start(s) == s.skip(lo),
    decreases lo,
{
    if lo == 0 {
        assert(s.skip(0) =~= s);
    } else {
        assert(is_ws(s[0]));
        lemma_trim_start_skip(s.skip(1), lo - 1);
        assert(s.skip(1).skip(lo - 1) =~= s.skip(lo));
    }
}

proof fn lemma_trim_end_take(s: Seq<u8>, hi: int)
    requires
        0 <= hi <= s.len(),
        forall|j: int| hi <= j < s.len() ==> is_ws(s[j]),
        hi == 0 || !is_ws(s[hi - 1]),
    ensures
        trim_end(s) == s.take(hi),
    decreases s.len(),
{
    if hi == s.len() {
        assert(s.take(hi) =~= s);
    } else {
        assert(is_ws(s.last()));
        lemma_trim_end_take(s.drop_last(), hi);
        assert(s.drop_last().take(hi) =~= s.take(hi));
    }
}

/// `v` without leading and trailing ASCII whitespace.
fn trim_bytes(v: &[u8]) -> (r: Vec<u8>)
    ensures
        r@ == trimmed(v@),
{
    let n = v.len();
    let mut lo: usize = 0;
    while lo < n && (v[lo] == 0x20 || (0x09 <= v[lo] && v[lo] <= 0x0d))
        invariant
            lo <= n,
            n == v@.len(),
            forall|j: int| 0 <= j < lo ==> is_ws(v@[j]),
        decreases n - lo,
    {
        lo += 1;
    }
    proof {
        lemma_trim_start_skip(v@, lo as int);
    }
    let ghost t = v@.skip(lo as int);
    let mut hi: usize = n;
    while hi > lo && (v[hi - 1] == 0x20 || (0x09 <= v[hi - 1] && v[hi - 1] <= 0x0d))
        invariant
            lo <= hi <= n,
            n == v@.len(),
            forall|j: int| hi <= j < n ==> is_ws(v@[j]),
        decreases hi,
    {
        hi -= 1;
    }
    proof {
        assert(forall|j: int| hi - lo <= j < t.len() ==> is_ws(#[trigger] t[j]));
        lemma_trim_end_take(t, hi - lo);
    }
    let mut out: Vec<u8> = Vec::new();
    let mut i: usize = lo;
    while i < hi
        invariant
            lo <= i <= hi <= n,
            n == v@.len(),
            out@ =~= v@.subrange(lo as int, i as int),
        decreases hi - i,
    {
        out.push(v[i]);
        proof {
            assert(out@ =~= v@.subrange(lo as int, i + 1));
        }
        i += 1;
    }
    proof {
        assert(out@ =~= t.take(hi - lo));
    }
    out
}

/// The OSC parameters from `from` on, joined with `;`.
fn join_from(params: &Vec<Vec<u8>>, from: usize) -> (r: Vec<u8>)
    ensures
        r@ == join_params(params@.map(|i: int, v: Vec<u8>| v@), from as int),
{
    let ghost pv = params@.map(|i: int, v: Vec<u8>| v@);
    let mut out: Vec<u8> = Vec::new();
    let n = params.len();
    let mut i: usize = from;
    while i < n
        invariant
            n == params@.len(),
            i >= from,
            pv == params@.map(|k: int, v: Vec<u8>| v@),
            out@ + join_params(pv, i as int) =~= join_params(pv, from as int),
        decreases n - i,
    {
        push_bytes(&mut out, params[i].as_slice());
        if i + 1 < n {
            out.push(0x3b);
        }
        proof {
            assert(out@ + join_params(pv, i + 1) =~= join_params(pv, from as int));
        }
        i += 1;
    }
    proof {
        assert(join_params(pv, i as int) =~= Seq::<u8>::empty());
        assert(out@ =~= join_params(pv, from as int));
    }
    out
}

fn push_osc_term(out: &mut Vec<u8>, bell: bool)
    ensures
        final(out)@ == old(out)@ + osc_term(bell),
{
    if bell {
        out.push(0x07);
        proof {
            assert(out@ =~= old(out)@ + osc_term(bell));
        }
    } else {
        out.push(0x1b);
        out.push(0x5c);
        proof {
            assert(out@ =~= old(out)@ + osc_term(bell));
        }
    }
}

/// Build the OSC color report for `code` and color `c`.
fn color_reply_vec(code: usize, c: RgbColor, bell: bool) -> (r: Vec<u8>)
    ensures
        r@ == osc_color_reply(code as int, c, bell),
{
    let mut out: Vec<u8> = Vec::new();
    out.push(0x1b);
    out.push(0x5d);
    push_dec(&mut out, code);
    out.push(0x3b);
    out.push(0x72);
    out.push(0x67);
    out.push(0x62);
    out.push(0x3a);
    push_hex2(&mut out, c.r);
    push_hex2(&mut out, c.r);
    out.push(0x2f);
    push_hex2(&mut out, c.g);
    push_hex2(&mut out, c.g);
    out.push(0x2f);
    push_hex2(&mut out, c.b);
    push_hex2(&mut out, c.b);
    push_osc_term(&mut out, bell);
    proof {
        assert(out@ =~= osc_color_reply(code as int, c, bell));
    }
    out
}

/// The OSC walk over the special colors, as the dispatch performs it.
#[verifier::rlimit(100)]
#[verifier::spinoff_prover]
fn osc_special_colors(
    screen: &mut Screen,
    writer: &mut Vec<u8>,
    params: &Vec<Vec<u8>>,
    num: usize,
    bell: bool,
)
    requires
        old(screen).wf(),
        num == 10 || num == 11 || num == 12,
        params@.len() >= 2,
    ensures
        final(screen).wf(),
        ({
            let r = spec_osc_special(
                old(screen)@,
                num as int,
                params@.map(|i: int, v: Vec<u8>| v@),
                1,
                bell,
            );
            &&& final(screen)@ == r.0
            &&& final(writer)@ == old(writer)@ + r.1
        }),
{
    let ghost pv = params@.map(|i: int, v: Vec<u8>| v@);
    let mut out: Vec<u8> = Vec::new();
    let n = params.len();
    let mut k: usize = 1;
    let mut code: usize = num;
    let mut aborted: bool = false;
    while k < n && code <= 12 && !aborted
        invariant
            screen.wf(),
            1 <= k <= n,
            n == params@.len(),
            pv == params@.map(|i: int, v: Vec<u8>| v@),
            code == num + k - 1,
            num == 10 || num == 11 || num == 12,
            ({
                let full = spec_osc_special(old(screen)@, num as int, pv, 1, bell);
                if aborted {
                    full.0 == screen@ && full.1 == out@
                } else {
                    let rest = spec_osc_special(screen@, code as int, pv, k as int, bell);
                    full.0 == rest.0 && full.1 == out@ + rest.1
                }
            }),
        decreases n - k, (if aborted { 0int } else { 1int }),
    {
        let which = if code == 10 {
            SpecialColor::Foreground
        } else if code == 11 {
            SpecialColor::Background
        } else {
            SpecialColor::Cursor
        };
        let p = &params[k];
        let is_query = p.len() == 1 && p[0] == 0x3f;
        proof {
            assert(pv[k as int] == p@);
            if is_query {
                assert(p@ =~= seq![0x3fu8]);
            } else {
                assert(p@ != seq![0x3fu8]);
            }
        }
        if is_query {
            match screen.get_special_color(which) {
                Some(c) => {
                    let reply = color_reply_vec(code, c, bell);
                    push_bytes(&mut out, reply.as_slice());
                },
                None => {},
            }
            k += 1;
            code += 1;
        } else {
            match RgbColor::parse(p.as_slice()) {
                Some(c) => {
                    screen.set_special_color(which, c);
                    k += 1;
                    code += 1;
                },
                None => {
                    aborted = true;
                },
            }
        }
    }
    push_bytes(writer, out.as_slice());
}

/// The cursor-shape prefix as bytes.
fn cursor_shape_prefix_vec() -> (r: Vec<u8>)
    ensures
        r@ == cursor_shape_prefix(),
{
    let v: Vec<u8> = vec![
        'C' as u8,
        'u' as u8,
        'r' as u8,
        's' as u8,
        'o' as u8,
        'r' as u8,
        'S' as u8,
        'h' as u8,
        'a' as u8,
        'p' as u8,
        'e' as u8,
        '=' as u8,
    ];
    proof {
        assert(v@ =~= cursor_shape_prefix());
    }
    v
}

/// Dispatch one OSC string.
#[verifier::rlimit(100)]
#[verifier::spinoff_prover]
fn osc_dispatch(params: &Vec<Vec<u8>>, bell: bool, screen: &mut Screen, writer: &mut Vec<u8>)
    requires
        old(screen).wf(),
    ensures
        final(screen).wf(),
        ({
            let r = spec_osc_dispatch(old(screen)@, params@.map(|i: int, v: Vec<u8>| v@), bell);
            &&& final(screen)@ == r.0
            &&& final(writer)@ == old(writer)@ + r.1
        }),
{
    proof {
        reveal(spec_osc_dispatch);
    }
    let ghost pv = params@.map(|i: int, v: Vec<u8>| v@);
    let ghost out0 = writer@;
    if params.len() == 0 || params[0].len() == 0 {
        proof {
            assert(writer@ =~= out0 + Seq::<u8>::empty());
        }
        return;
    }
    let num: u64 = match parse_dec_bounded(params[0].as_slice(), 0xffff_ffff) {
        Some(v) => v,
        None => {
            proof {
                assert(writer@ =~= out0 + Seq::<u8>::empty());
            }
            return;
        },
    };
    if num == 0 || num == 2 {
        if params.len() > 1 {
            let joined = join_from(params, 1);
            let title = trim_bytes(joined.as_slice());
            screen.set_title(title);
        }
    } else if num == 4 {
        if params.len() == 3 {
            let idx = parse_dec_bounded(params[1].as_slice(), 255);
            let c = RgbColor::parse(params[2].as_slice());
            match (idx, c) {
                (Some(idx), Some(c)) => screen.set_color(idx as u8, c),
                _ => {},
            }
        }
    } else if num == 7 {
        if params.len() > 1 {
            let joined = join_from(params, 1);
            let path = trim_bytes(joined.as_slice());
            screen.set_path(path);
        }
    } else if num == 10 || num == 11 || num == 12 {
        if params.len() >= 2 {
            osc_special_colors(screen, writer, params, num as usize, bell);
            return;
        }
    } else if num == 50 {
        if params.len() >= 2 && params[1].len() >= 13 {
            let head = &params[1].as_slice()[0..12];
            let prefix = cursor_shape_prefix_vec();
            proof {
                assert(head@ =~= pv[1].take(12));
            }
            if crate::color::bytes_eq(head, prefix.as_slice()) {
                let plen = params[1].len();
                let tail = &params[1].as_slice()[12..plen];
                proof {
                    assert(tail@ =~= pv[1].skip(12));
                }
                match parse_dec_bounded(tail, 255) {
                    Some(v) => {
                        match CursorStyle::from_primitive(v as i64) {
                            Some(style) => screen.set_cursor_style(style),
                            None => {},
                        }
                    },
                    None => {},
                }
            }
        }
    } else if num == 52 {
        if params.len() == 3 {
            let kind_byte: u8 = if params[1].len() > 0 {
                params[1][0]
            } else {
                0x63
            };
            match ClipboardType::from_primitive(kind_byte) {
                Some(kind) => {
                    let is_query = params[2].len() == 1 && params[2][0] == 0x3f;
                    proof {
                        if is_query {
                            assert(pv[2] =~= seq![0x3fu8]);
                        } else {
                            assert(pv[2] != seq![0x3fu8]);
                        }
                    }
                    if is_query {
                        match screen.get_clipboard(kind) {
                            Some(data) => {
                                let b64 = encode_base64(data.as_slice());
                                let mut reply: Vec<u8> = Vec::new();
                                reply.push(0x1b);
                                reply.push(0x5d);
                                reply.push(0x35);
                                reply.push(0x32);
                                reply.push(0x3b);
                                reply.push(kind_byte);
                                reply.push(0x3b);
                                push_bytes(&mut reply, b64.as_slice());
                                push_osc_term(&mut reply, bell);
                                proof {
                                    assert(reply@ =~= osc_clipboard_reply(
                                        kind_byte,
                                        data@,
                                        bell,
                                    ));
                                }
                                push_bytes(writer, reply.as_slice());
                                return;
                            },
                            None => {},
                        }
                    } else {
                        match decode_base64(params[2].as_slice()) {
                            Some(data) => screen.set_clipboard(kind, data),
                            None => {},
                        }
                    }
                },
                None => {},
            }
        }
    } else if num == 104 {
        if params.len() == 1 {
            screen.reset_all_colors();
        } else {
            let n = params.len();
            let mut k: usize = 1;
            while k < n
                invariant
                    screen.wf(),
                    1 <= k <= n,
                    n == params@.len(),
                    pv == params@.map(|i: int, v: Vec<u8>| v@),
                    spec_reset_listed_colors(old(screen)@, pv, 1) == spec_reset_listed_colors(
                        screen@,
                        pv,
                        k as int,
                    ),
                decreases n - k,
            {
                match parse_dec_bounded(params[k].as_slice(), 255) {
                    Some(v) => screen.reset_color(v as u8),
                    None => {},
                }
                k += 1;
            }
        }
    } else if num == 110 {
        screen.reset_special_color(SpecialColor::Foreground);
    } else if num == 111 {
        screen.reset_special_color(SpecialColor::Background);
    } else if num == 112 {
        screen.reset_special_color(SpecialColor::Cursor);
    }
    proof {
        let r = spec_osc_dispatch(old(screen)@, pv, bell);
        assert(writer@ =~= out0 + Seq::<u8>::empty());
    }
}

/// The adapter between parser events and the screen; carries the
/// preceding-character slot across events.
pub struct Performer {
    pub state: ProcessorState,
}

impl Performer {
    pub fn new(state: ProcessorState) -> (r: Performer)
        ensures
            r.state == state,
    {
        Performer { state }
    }

    /// Apply one parser event to the screen, appending any response bytes.
    pub fn perform(&mut self, ev: &Event, screen: &mut Screen, writer: &mut Vec<u8>)
        requires
            old(screen).wf(),
        ensures
            final(screen).wf(),
            ({
                let r = spec_perform(old(screen)@, old(self).state.preceding_char, ev@);
                &&& final(screen)@ == r.0
                &&& final(self).state.preceding_char == r.1
                &&& final(writer)@ == old(writer)@ + r.2
            }),
    {
        proof {
            reveal(spec_perform);
        }
        let ghost out0 = writer@;
        match ev {
            Event::Print(c) => {
                screen.put_char(*c);
                self.state.preceding_char = Some(*c);
                proof {
                    assert(writer@ =~= out0 + Seq::<u8>::empty());
                }
            },
            Event::Execute(b) => {
                let b = *b;
                if b == 0x07 {
                    screen.bell();
                } else if b == 0x08 {
                    screen.put_backspace(1);
                } else if b == 0x09 {
                    screen.put_tab(1);
                } else if b == 0x0a || b == 0x0b || b == 0x0c {
                    screen.put_lf();
                } else if b == 0x0d {
                    screen.put_cr();
                } else if b == 0x0e {
                    screen.set_active_charset(CharsetIndex::G1);
                } else if b == 0x0f {
                    screen.set_active_charset(CharsetIndex::G0);
                }
                proof {
                    assert(writer@ =~= out0 + Seq::<u8>::empty());
                }
            },
            Event::EscDispatch { intermediates, ignore: _, byte } => {
                let byte = *byte;
                let has_i = intermediates.len() > 0;
                let i0: u8 = if has_i {
                    intermediates[0]
                } else {
                    0
                };
                if byte == 0x30 && has_i && i0 == 0x28 {
                    screen.configure_charset(CharsetIndex::G0, StandardCharset::Special);
                } else if byte == 0x30 && has_i && i0 == 0x29 {
                    screen.configure_charset(CharsetIndex::G1, StandardCharset::Special);
                } else if byte == 0x42 && has_i && i0 == 0x28 {
                    screen.configure_charset(CharsetIndex::G0, StandardCharset::Ascii);
                } else if byte == 0x42 && has_i && i0 == 0x29 {
                    screen.configure_charset(CharsetIndex::G1, StandardCharset::Ascii);
                } else if byte == 0x37 && !has_i {
                    screen.save_cursor_position();
                } else if byte == 0x38 && !has_i {
                    screen.restore_cursor_position();
                } else if byte == 0x38 && has_i && i0 == 0x23 {
                    screen.do_alignment_test();
                } else if byte == 0x3d && !has_i {
                    screen.set_keypad_application_mode();
                } else if byte == 0x3e && !has_i {
                    screen.unset_keypad_application_mode();
                } else if byte == 0x44 && !has_i {
                    screen.put_lf();
                } else if byte == 0x45 && !has_i {
                    screen.put_lf();
                    screen.put_cr();
                } else if byte == 0x48 && !has_i {
                    let col = screen.cursor.x;
                    screen.set_horizontal_tabstop(col);
                } else if byte == 0x4d && !has_i {
                    screen.reverse_index();
                } else if byte == 0x63 && !has_i {
                    screen.reset_state();
                    self.state.preceding_char = None;
                }
                proof {
                    assert(writer@ =~= out0 + Seq::<u8>::empty());
                }
            },
            Event::CsiDispatch { params, intermediates, ignore, action } => {
                csi_dispatch(
                    self.state.preceding_char,
                    params,
                    intermediates,
                    *ignore,
                    *action,
                    screen,
                    writer,
                );
            },
            Event::OscDispatch { params, bell_terminated } => {
                osc_dispatch(params, *bell_terminated, screen, writer);
            },
            Event::Hook { .. } => {
                proof {
                    assert(writer@ =~= out0 + Seq::<u8>::empty());
                }
            },
            Event::Put(_) => {
                proof {
                    assert(writer@ =~= out0 + Seq::<u8>::empty());
                }
            },
            Event::Unhook => {
                proof {
                    assert(writer@ =~= out0 + Seq::<u8>::empty());
                }
            },
        }
    }

}

/// Dispatch one CSI sequence: the complete action table. Sequences marked
/// ignored or carrying more than one intermediate are skipped.
fn csi_dispatch(
    pc: Option<char>,
    params: &Vec<i64>,
    intermediates: &Vec<u8>,
    ignore: bool,
    action: char,
    screen: &mut Screen,
    writer: &mut Vec<u8>,
)
    requires
        old(screen).wf(),
    ensures
        final(screen).wf(),
        ({
            let r = spec_csi_dispatch(
                old(screen)@,
                pc,
                params@,
                intermediates@,
                ignore,
                action,
            );
            &&& final(screen)@ == r.0
            &&& final(writer)@ == old(writer)@ + r.1
        }),
{
    proof {
        reveal(spec_csi_dispatch);
    }
    let ghost out0 = writer@;
    if ignore || intermediates.len() > 1 {
        proof {
            assert(writer@ =~= out0 + Seq::<u8>::empty());
        }
        return;
    }
    if action == '@' || action == 'A' || action == 'B' || action == 'e' || action == 'C' || action
        == 'a' || action == 'D' || action == 'E' || action == 'F' || action == 'G' || action == '`'
        || action == 'H' || action == 'f' || action == 'd' {
        csi_cursor(params, intermediates, action, screen);
        proof {
            assert(writer@ =~= out0 + Seq::<u8>::empty());
        }
    } else if action == 'J' || action == 'K' || action == 'L' || action == 'M' || action == 'P'
        || action == 'S' || action == 'T' || action == 'X' || action == 'Z' {
        csi_edit(params, intermediates, action, screen);
        proof {
            assert(writer@ =~= out0 + Seq::<u8>::empty());
        }
    } else if action == 'b' || action == 'c' || action == 'n' || action == 'q' {
        csi_report(pc, params, intermediates, action, screen, writer);
    } else if action == 'h' || action == 'l' || action == 'm' {
        csi_modes(params, intermediates, action, screen);
        proof {
            assert(writer@ =~= out0 + Seq::<u8>::empty());
        }
    } else if action == 'g' || action == 'r' || action == 's' || action == 't' || action == 'u' {
        csi_misc(params, intermediates, action, screen);
        proof {
            assert(writer@ =~= out0 + Seq::<u8>::empty());
        }
    } else {
        proof {
            assert(writer@ =~= out0 + Seq::<u8>::empty());
        }
    }
}

/// Cursor motion and placement sequences; they write nothing back.
#[verifier::rlimit(100)]
#[verifier::spinoff_prover]
fn csi_cursor(params: &Vec<i64>, intermediates: &Vec<u8>, action: char, screen: &mut Screen)
    requires
        old(screen).wf(),
        intermediates@.len() <= 1,
        action == '@' || action == 'A' || action == 'B' || action == 'e' || action == 'C'
            || action == 'a' || action == 'D' || action == 'E' || action == 'F' || action == 'G'
            || action == '`' || action == 'H' || action == 'f' || action == 'd',
    ensures
        final(screen).wf(),
        ({
            let r = spec_csi_dispatch(
                old(screen)@,
                None::<char>,
                params@,
                intermediates@,
                false,
                action,
            );
            &&& final(screen)@ == r.0
            &&& r.1 == Seq::<u8>::empty()
        }),
{
    proof {
        reveal(spec_csi_dispatch);
    }
    let has_i = intermediates.len() > 0;
    let n1 = count_arg(params.as_slice(), 0, 1);
    if has_i {
        return;
    }
    if action == '@' {
        screen.insert_blank(n1);
    } else if action == 'A' {
        screen.move_up(n1);
    } else if action == 'B' || action == 'e' {
        screen.move_down(n1);
    } else if action == 'C' || action == 'a' {
        screen.move_forward(n1);
    } else if action == 'D' {
        screen.move_backward(n1);
    } else if action == 'E' {
        screen.move_down(n1);
        screen.put_cr();
    } else if action == 'F' {
        screen.move_up(n1);
        screen.put_cr();
    } else if action == 'G' || action == '`' {
        screen.goto_column(n1 - 1);
    } else if action == 'H' || action == 'f' {
        let n2 = count_arg(params.as_slice(), 1, 1);
        screen.goto(n1 - 1, n2 - 1);
    } else {
        screen.goto_line(n1 - 1);
    }
}

/// Clearing, insertion, deletion, and scrolling sequences.
#[verifier::rlimit(100)]
#[verifier::spinoff_prover]
fn csi_edit(params: &Vec<i64>, intermediates: &Vec<u8>, action: char, screen: &mut Screen)
    requires
        old(screen).wf(),
        intermediates@.len() <= 1,
        action == 'J' || action == 'K' || action == 'L' || action == 'M' || action == 'P'
            || action == 'S' || action == 'T' || action == 'X' || action == 'Z',
    ensures
        final(screen).wf(),
        ({
            let r = spec_csi_dispatch(
                old(screen)@,
                None::<char>,
                params@,
                intermediates@,
                false,
                action,
            );
            &&& final(screen)@ == r.0
            &&& r.1 == Seq::<u8>::empty()
        }),
{
    proof {
        reveal(spec_csi_dispatch);
    }
    let has_i = intermediates.len() > 0;
    let n1 = count_arg(params.as_slice(), 0, 1);
    if has_i {
        return;
    }
    if action == 'J' {
        let sel = selector_arg(params.as_slice(), 0);
        if sel == 0 {
            screen.clear_screen(ClearScreenMode::Below);
        } else if sel == 1 {
            screen.clear_screen(ClearScreenMode::Above);
        } else if sel == 2 {
            screen.clear_screen(ClearScreenMode::All);
        } else if sel == 3 {
            screen.clear_screen(ClearScreenMode::Saved);
        }
    } else if action == 'K' {
        let sel = selector_arg(params.as_slice(), 0);
        if sel == 0 {
            screen.clear_line(ClearLineMode::Right);
        } else if sel == 1 {
            screen.clear_line(ClearLineMode::Left);
        } else if sel == 2 {
            screen.clear_line(ClearLineMode::All);
        }
    } else if action == 'L' {
        screen.insert_blank_lines(n1);
    } else if action == 'M' {
        screen.delete_lines(n1);
    } else if action == 'P' {
        screen.delete_chars(n1);
    } else if action == 'S' {
        screen.scroll_up(n1);
    } else if action == 'T' {
        screen.scroll_down(n1);
    } else if action == 'X' {
        screen.erase_chars(n1);
    } else {
        screen.move_backward_tabs(n1);
    }
}

/// Repeat, device attributes, status reports, and cursor style.
#[verifier::rlimit(100)]
#[verifier::spinoff_prover]
fn csi_report(
    pc: Option<char>,
    params: &Vec<i64>,
    intermediates: &Vec<u8>,
    action: char,
    screen: &mut Screen,
    writer: &mut Vec<u8>,
)
    requires
        old(screen).wf(),
        intermediates@.len() <= 1,
        action == 'b' || action == 'c' || action == 'n' || action == 'q',
    ensures
        final(screen).wf(),
        ({
            let r = spec_csi_dispatch(
                old(screen)@,
                pc,
                params@,
                intermediates@,
                false,
                action,
            );
            &&& final(screen)@ == r.0
            &&& final(writer)@ == old(writer)@ + r.1
        }),
{
    proof {
        reveal(spec_csi_dispatch);
    }
    let ghost out0 = writer@;
    let has_i = intermediates.len() > 0;
    let i0: u8 = if has_i {
        intermediates[0]
    } else {
        0
    };
    let n1 = count_arg(params.as_slice(), 0, 1);
    if !has_i && action == 'b' {
        match pc {
            Some(ch) => {
                let mut i: usize = 0;
                while i < n1
                    invariant
                        screen.wf(),
                        i <= n1,
                        spec_repeat_char(old(screen)@, ch, n1 as nat) == spec_repeat_char(
                            screen@,
                            ch,
                            (n1 - i) as nat,
                        ),
                    decreases n1 - i,
                {
                    screen.put_char(ch);
                    i += 1;
                }
            },
            None => {},
        }
        proof {
            assert(writer@ =~= out0 + Seq::<u8>::empty());
        }
    } else if !has_i && action == 'c' {
        if selector_arg(params.as_slice(), 0) == 0 {
            let reply: Vec<u8> = vec![0x1b, 0x5b, 0x3f, 0x31, 0x3b, 0x32, 0x63];
            proof {
                assert(reply@ =~= primary_da_reply());
            }
            push_bytes(writer, reply.as_slice());
        } else {
            proof {
                assert(writer@ =~= out0 + Seq::<u8>::empty());
            }
        }
    } else if has_i && i0 == 0x3e && action == 'c' {
        if selector_arg(params.as_slice(), 0) == 0 {
            let reply: Vec<u8> = vec![0x1b, 0x5b, 0x3e, 0x38, 0x34, 0x3b, 0x30, 0x3b, 0x30, 0x63];
            proof {
                assert(reply@ =~= secondary_da_reply());
            }
            push_bytes(writer, reply.as_slice());
        } else {
            proof {
                assert(writer@ =~= out0 + Seq::<u8>::empty());
            }
        }
    } else if !has_i && action == 'n' {
        let sel = selector_arg(params.as_slice(), 0);
        if sel == 5 {
            let reply: Vec<u8> = vec![0x1b, 0x5b, 0x30, 0x6e];
            proof {
                assert(reply@ =~= dsr_ok_reply());
            }
            push_bytes(writer, reply.as_slice());
        } else if sel == 6 {
            let mut reply: Vec<u8> = Vec::new();
            reply.push(0x1b);
            reply.push(0x5b);
            push_dec(&mut reply, screen.cursor.y);
            reply.push(0x3b);
            push_dec(&mut reply, screen.cursor.x);
            reply.push(0x52);
            proof {
                assert(reply@ =~= cursor_report(screen.cursor));
            }
            push_bytes(writer, reply.as_slice());
        } else {
            proof {
                assert(writer@ =~= out0 + Seq::<u8>::empty());
            }
        }
    } else if has_i && i0 == 0x20 && action == 'q' {
        let sel = selector_arg(params.as_slice(), 0);
        if sel <= 6 {
            match CursorStyle::from_primitive(sel as i64) {
                Some(style) => screen.set_cursor_style(style),
                None => {},
            }
        }
        proof {
            assert(writer@ =~= out0 + Seq::<u8>::empty());
        }
    } else {
        proof {
            assert(writer@ =~= out0 + Seq::<u8>::empty());
        }
    }
}

/// Mode switching and SGR.
#[verifier::rlimit(100)]
#[verifier::spinoff_prover]
fn csi_modes(params: &Vec<i64>, intermediates: &Vec<u8>, action: char, screen: &mut Screen)
    requires
        old(screen).wf(),
        intermediates@.len() <= 1,
        action == 'h' || action == 'l' || action == 'm',
    ensures
        final(screen).wf(),
        ({
            let r = spec_csi_dispatch(
                old(screen)@,
                None::<char>,
                params@,
                intermediates@,
                false,
                action,
            );
            &&& final(screen)@ == r.0
            &&& r.1 == Seq::<u8>::empty()
        }),
{
    proof {
        reveal(spec_csi_dispatch);
    }
    let has_i = intermediates.len() > 0;
    let i0: u8 = if has_i {
        intermediates[0]
    } else {
        0
    };
    if action == 'h' || action == 'l' {
        let value = action == 'h';
        let inter: Option<u8> = if has_i {
            Some(i0)
        } else {
            None
        };
        let n = params.len();
        let mut k: usize = 0;
        proof {
            assert(params@.skip(0) =~= params@);
        }
        while k < n
            invariant
                screen.wf(),
                k <= n,
                n == params@.len(),
                spec_set_modes(old(screen)@, inter, params@, value) == spec_set_modes(
                    screen@,
                    inter,
                    params@.skip(k as int),
                    value,
                ),
            decreases n - k,
        {
            let pk = params[k];
            let inter_ref: Option<&u8> = match &inter {
                Some(b) => Some(b),
                None => None,
            };
            match TerminalMode::from_primitive(inter_ref, pk) {
                Some(mode) => {
                    if value {
                        screen.set_mode(mode);
                    } else {
                        screen.unset_mode(mode);
                    }
                },
                None => {},
            }
            proof {
                assert(params@.skip(k as int).skip(1) =~= params@.skip(k + 1));
            }
            k += 1;
        }
        proof {
            assert(params@.skip(n as int) =~= Seq::<i64>::empty());
        }
    } else if !has_i {
        if params.len() == 0 {
            screen.sgr_attribute(Attribute::Reset);
        } else {
            let attrs = parse_attributes(params.as_slice());
            let n = attrs.len();
            let mut k: usize = 0;
            proof {
                assert(attrs@.skip(0) =~= attrs@);
            }
            while k < n
                invariant
                    screen.wf(),
                    k <= n,
                    n == attrs@.len(),
                    spec_apply_attrs(old(screen)@, attrs@) == spec_apply_attrs(
                        screen@,
                        attrs@.skip(k as int),
                    ),
                decreases n - k,
            {
                screen.sgr_attribute(attrs[k]);
                proof {
                    assert(attrs@.skip(k as int).skip(1) =~= attrs@.skip(k + 1));
                }
                k += 1;
            }
            proof {
                assert(attrs@.skip(n as int) =~= Seq::<Attribute>::empty());
            }
        }
    }
}

/// Tabstop clearing, scrolling region, cursor save/restore, title stack.
#[verifier::rlimit(100)]
#[verifier::spinoff_prover]
fn csi_misc(params: &Vec<i64>, intermediates: &Vec<u8>, action: char, screen: &mut Screen)
    requires
        old(screen).wf(),
        intermediates@.len() <= 1,
        action == 'g' || action == 'r' || action == 's' || action == 't' || action == 'u',
    ensures
        final(screen).wf(),
        ({
            let r = spec_csi_dispatch(
                old(screen)@,
                None::<char>,
                params@,
                intermediates@,
                false,
                action,
            );
            &&& final(screen)@ == r.0
            &&& r.1 == Seq::<u8>::empty()
        }),
{
    proof {
        reveal(spec_csi_dispatch);
    }
    let has_i = intermediates.len() > 0;
    if has_i {
        return;
    }
    let n1 = count_arg(params.as_slice(), 0, 1);
    if action == 'g' {
        let sel = selector_arg(params.as_slice(), 0);
        if sel == 0 {
            let col = screen.cursor.x;
            screen.unset_horizontal_tabstop(col);
        } else if sel == 3 {
            screen.unset_all_horizontal_tabstops();
        }
    } else if action == 'r' {
        let h = screen.size.y;
        let n2 = count_arg(params.as_slice(), 1, h);
        screen.set_scrolling_region(n1, n2);
    } else if action == 's' {
        screen.save_cursor_position();
    } else if action == 't' {
        let sel = selector_arg(params.as_slice(), 0);
        if sel == 22 {
            screen.save_title();
        } else if sel == 23 {
            screen.restore_title();
        }
    } else {
        screen.restore_cursor_position();
    }
}

/// The processor: the state machine plus the per-stream dispatcher state.
pub struct Processor {
    pub state: ProcessorState,
    pub parser: Parser,
}

impl Default for Processor {
    fn default() -> (r: Self)
        ensures
            r.wf(),
            r.parser@ =~~= ParserModel::initial(),
            r.state.preceding_char is None,
    {
        Processor { state: ProcessorState::default(), parser: Parser::new() }
    }
}

impl Processor {
    pub open spec fn wf(&self) -> bool {
        self.parser.wf()
    }

    /// Drive the machine across a byte slice: every byte is parsed in order,
    /// each fired event is applied to the screen, and the response bytes are
    /// appended to `writer`. The result is exactly the fold of `spec_step`
    /// and `spec_perform` over the bytes.
    pub fn advance(&mut self, bytes: &[u8], handler: &mut Screen, writer: &mut Vec<u8>)
        requires
            old(self).wf(),
            old(handler).wf(),
        ensures
            final(self).wf(),
            final(handler).wf(),
            ({
                let run = spec_run(old(self).parser@, bytes@);
                let r = spec_apply_events(
                    old(handler)@,
                    old(self).state.preceding_char,
                    run.1,
                );
                &&& final(self).parser@ == run.0
                &&& final(handler)@ == r.0
                &&& final(self).state.preceding_char == r.1
                &&& final(writer)@ == old(writer)@ + r.2
            }),
    {
        let ghost p0 = self.parser@;
        let ghost m0 = handler@;
        let ghost pc0 = self.state.preceding_char;
        let ghost out0 = writer@;
        let n = bytes.len();
        let mut i: usize = 0;
        proof {
            assert(bytes@.take(0) =~= Seq::<u8>::empty());
            let r0 = spec_apply_events(m0, pc0, spec_run(p0, bytes@.take(0)).1);
            assert(writer@ =~= out0 + r0.2);
        }
        while i < n
            invariant
                self.wf(),
                handler.wf(),
                n == bytes@.len(),
                i <= n,
                self.parser@ == spec_run(p0, bytes@.take(i as int)).0,
                ({
                    let r = spec_apply_events(m0, pc0, spec_run(p0, bytes@.take(i as int)).1);
                    handler@ == r.0 && self.state.preceding_char == r.1 && writer@ == out0 + r.2
                }),
            decreases n - i,
        {
            let b = bytes[i];
            let ghost pre_parser = self.parser@;
            let ghost pre_m = handler@;
            let ghost pre_pc = self.state.preceding_char;
            let ghost pre_out = writer@;
            let ev = self.parser.step(b);
            match ev {
                Some(e) => {
                    let mut performer = Performer::new(
                        ProcessorState { preceding_char: self.state.preceding_char },
                    );
                    performer.perform(&e, handler, writer);
                    self.state = performer.state;
                },
                None => {},
            }
            proof {
                let step = spec_step(pre_parser, b);
                // Relate the prefix folds across this byte.
                lemma_parser_byte_split(p0, bytes@.take(i as int), seq![b]);
                assert(bytes@.take(i as int) + seq![b] =~= bytes@.take(i + 1));
                assert(seq![b].skip(1) =~= Seq::<u8>::empty());
                assert(seq![b].len() == 1 && seq![b][0] == b);
                assert(spec_run(step.0, Seq::<u8>::empty()) == (
                    step.0,
                    Seq::<EventV>::empty(),
                ));
                let single = spec_run(pre_parser, seq![b]);
                assert(single.0 == spec_run(step.0, seq![b].skip(1)).0);
                assert(single.0 == step.0);
                match step.1 {
                    Some(e) => {
                        assert(single.1 =~= seq![e]);
                    },
                    None => {
                        assert(single.1 =~= Seq::<EventV>::empty());
                    },
                }
                assert(spec_run(p0, bytes@.take(i + 1)).0 == step.0);
                assert(spec_run(p0, bytes@.take(i + 1)).1 =~= spec_run(
                    p0,
                    bytes@.take(i as int),
                ).1 + single.1);
                lemma_apply_events_concat(
                    m0,
                    pc0,
                    spec_run(p0, bytes@.take(i as int)).1,
                    single.1,
                );
                match step.1 {
                    Some(e) => {
                        assert(seq![e].len() == 1 && seq![e][0] == e);
                        assert(seq![e].skip(1) =~= Seq::<EventV>::empty());
                        let r1 = spec_perform(pre_m, pre_pc, e);
                        assert(spec_apply_events(r1.0, r1.1, Seq::<EventV>::empty()) == (
                            r1.0,
                            r1.1,
                            Seq::<u8>::empty(),
                        ));
                        assert(spec_apply_events(pre_m, pre_pc, seq![e]).0 == r1.0);
                        assert(spec_apply_events(pre_m, pre_pc, seq![e]).1 == r1.1);
                        assert(spec_apply_events(pre_m, pre_pc, seq![e]).2 =~= r1.2);
                    },
                    None => {},
                }
                let r = spec_apply_events(m0, pc0, spec_run(p0, bytes@.take(i + 1)).1);
                assert(writer@ =~= out0 + r.2);
            }
            i += 1;
        }
        proof {
            assert(bytes@.take(n as int) =~= bytes@);
        }
    }
}

} // verus!
