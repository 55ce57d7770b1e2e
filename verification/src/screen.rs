//! The screen: cell grid, cursor, character-set state, SGR template, and
//! every operation the dispatcher can ask for.
//!
//! Each operation is specified as a transition on `ScreenModel`, the
//! mathematical image of a screen; the methods promise to realize exactly
//! that transition. Well-formedness (`ScreenModel::wf`) carries the cursor
//! invariant: after any operation the cursor lies strictly inside the grid.

use vstd::prelude::*;
use crate::cell::{Attributes, Cell, Flags};
use crate::charset::{CharsetIndex, CharsetList, StandardCharset, spec_map_char};
use crate::color::RgbColor;
use crate::grid::{
    Grid, deleted_row, filled_row, full_row, inserted_row, scrolled_down, scrolled_up,
};
use crate::iter::COORD_LIMIT;
use crate::modes::{ClearLineMode, ClearScreenMode, ClipboardType, CursorStyle, ModeSet,
    TerminalMode, spec_clipboard_slot};
use crate::point::Point;
use crate::sgr::Attribute;
use crate::text::copy_bytes;

verus! {

/// The mathematical image of a screen.
#[verifier::ext_equal]
pub struct ScreenModel {
    pub size: Point,
    pub rows: Seq<Seq<Cell>>,
    pub tabstops: Seq<bool>,
    pub cursor: Point,
    pub template: Attributes,
    pub charsets: CharsetList,
    pub active_charset: CharsetIndex,
    pub scroll_top: usize,
    pub scroll_bottom: usize,
    pub saved_cursor: Point,
    pub title: Option<Seq<u8>>,
    pub title_stack: Seq<Seq<u8>>,
    pub path: Option<Seq<u8>>,
    pub clipboard_data: Seq<Seq<u8>>,
    pub clipboard_set: Seq<bool>,
    pub palette: Seq<Option<RgbColor>>,
    pub special_fg: Option<RgbColor>,
    pub special_bg: Option<RgbColor>,
    pub special_cursor: Option<RgbColor>,
    pub modes: ModeSet,
    pub cursor_style: CursorStyle,
    pub keypad_application_mode: bool,
}

pub open spec fn opt_bytes(v: Option<Vec<u8>>) -> Option<Seq<u8>> {
    match v {
        Some(b) => Some(b@),
        None => None,
    }
}

/// The number of clipboard slots (clipboard, primary, selection, cut 0-7).
pub const CLIPBOARD_SLOTS: usize = 11;

/// The number of indexed palette entries.
pub const PALETTE_SLOTS: usize = 256;

impl ScreenModel {
    /// Grid rectangular and matching `size`; cursor, saved cursor, and
    /// scrolling region in bounds.
    pub open spec fn wf(self) -> bool {
        &&& 1 <= self.size.x < COORD_LIMIT
        &&& 1 <= self.size.y < COORD_LIMIT
        &&& self.rows.len() == self.size.y
        &&& forall|y: int| 0 <= y < self.rows.len() ==> (#[trigger] self.rows[y]).len()
            == self.size.x
        &&& self.tabstops.len() == self.size.x
        &&& self.cursor.x < self.size.x
        &&& self.cursor.y < self.size.y
        &&& self.saved_cursor.x < self.size.x
        &&& self.saved_cursor.y < self.size.y
        &&& self.scroll_top <= self.scroll_bottom
        &&& self.scroll_bottom < self.size.y
        &&& self.clipboard_data.len() == CLIPBOARD_SLOTS
        &&& self.clipboard_set.len() == CLIPBOARD_SLOTS
        &&& self.palette.len() == PALETTE_SLOTS
    }

    /// The blank cell this screen currently erases with.
    pub open spec fn blank(self) -> Cell {
        Cell { ch: None, attributes: self.template }
    }
}

// ---------------------------------------------------------------------------
// Transitions that touch only cursor and bookkeeping state.
// ---------------------------------------------------------------------------

pub open spec fn spec_put_cr(m: ScreenModel) -> ScreenModel {
    ScreenModel { cursor: Point { x: 0, y: m.cursor.y }, ..m }
}

/// Vertical advance used by line feeds and by wrapping: at the bottom of the
/// scrolling region the region scrolls up one row; elsewhere the cursor moves
/// down, stopping at the last row.
pub open spec fn spec_line_advance(m: ScreenModel) -> ScreenModel {
    if m.cursor.y == m.scroll_bottom {
        ScreenModel {
            rows: scrolled_up(
                m.rows,
                m.scroll_top as int,
                m.scroll_bottom as int,
                1,
                full_row(m.size.x as int, m.blank()),
            ),
            ..m
        }
    } else if m.cursor.y + 1 < m.size.y {
        ScreenModel { cursor: Point { x: m.cursor.x, y: (m.cursor.y + 1) as usize }, ..m }
    } else {
        m
    }
}

pub open spec fn spec_put_lf(m: ScreenModel) -> ScreenModel {
    spec_line_advance(ScreenModel { cursor: Point { x: 0, y: m.cursor.y }, ..m })
}

pub open spec fn spec_save_cursor(m: ScreenModel) -> ScreenModel {
    ScreenModel { saved_cursor: m.cursor, ..m }
}

pub open spec fn spec_restore_cursor(m: ScreenModel) -> ScreenModel {
    ScreenModel { cursor: m.saved_cursor, ..m }
}

pub open spec fn spec_move_up(m: ScreenModel, count: usize) -> ScreenModel {
    ScreenModel {
        cursor: Point {
            x: m.cursor.x,
            y: if count > m.cursor.y {
                0
            } else {
                (m.cursor.y - count) as usize
            },
        },
        ..m
    }
}

pub open spec fn spec_move_down(m: ScreenModel, count: usize) -> ScreenModel {
    ScreenModel {
        cursor: Point {
            x: m.cursor.x,
            y: if m.cursor.y + count >= m.size.y {
                (m.size.y - 1) as usize
            } else {
                (m.cursor.y + count) as usize
            },
        },
        ..m
    }
}

pub open spec fn spec_move_forward(m: ScreenModel, count: usize) -> ScreenModel {
    ScreenModel {
        cursor: Point {
            x: if m.cursor.x + count >= m.size.x {
                (m.size.x - 1) as usize
            } else {
                (m.cursor.x + count) as usize
            },
            y: m.cursor.y,
        },
        ..m
    }
}

pub open spec fn spec_move_backward(m: ScreenModel, count: usize) -> ScreenModel {
    ScreenModel {
        cursor: Point {
            x: if count > m.cursor.x {
                0
            } else {
                (m.cursor.x - count) as usize
            },
            y: m.cursor.y,
        },
        ..m
    }
}

pub open spec fn spec_goto_column(m: ScreenModel, column: usize) -> ScreenModel {
    ScreenModel {
        cursor: Point {
            x: if column >= m.size.x {
                (m.size.x - 1) as usize
            } else {
                column
            },
            y: m.cursor.y,
        },
        ..m
    }
}

pub open spec fn spec_goto_line(m: ScreenModel, line: usize) -> ScreenModel {
    ScreenModel {
        cursor: Point {
            x: m.cursor.x,
            y: if line >= m.size.y {
                (m.size.y - 1) as usize
            } else {
                line
            },
        },
        ..m
    }
}

pub open spec fn spec_goto(m: ScreenModel, line: usize, column: usize) -> ScreenModel {
    spec_goto_column(spec_goto_line(m, line), column)
}

/// 1-based inclusive bounds from the wire; 0 selects the default edge. An
/// empty or inverted region leaves the screen unchanged.
pub open spec fn spec_set_scrolling_region(m: ScreenModel, top: usize, bottom: usize) -> ScreenModel {
    let t0 = if top == 0 {
        0
    } else {
        (top - 1) as usize
    };
    let b_eff = if bottom == 0 || bottom > m.size.y {
        m.size.y
    } else {
        bottom
    };
    let b0 = (b_eff - 1) as usize;
    if t0 <= b0 && b0 < m.size.y {
        ScreenModel { scroll_top: t0, scroll_bottom: b0, ..m }
    } else {
        m
    }
}

pub open spec fn spec_set_mode(m: ScreenModel, mode: TerminalMode, value: bool) -> ScreenModel {
    ScreenModel { modes: m.modes.spec_set(mode, value), ..m }
}

pub open spec fn spec_set_active_charset(m: ScreenModel, index: CharsetIndex) -> ScreenModel {
    ScreenModel { active_charset: index, ..m }
}

pub open spec fn spec_configure_charset(
    m: ScreenModel,
    index: CharsetIndex,
    charset: StandardCharset,
) -> ScreenModel {
    ScreenModel { charsets: m.charsets.spec_set(index, charset), ..m }
}

pub open spec fn spec_set_title(m: ScreenModel, title: Seq<u8>) -> ScreenModel {
    ScreenModel { title: Some(title), ..m }
}

pub open spec fn spec_save_title(m: ScreenModel) -> ScreenModel {
    ScreenModel {
        title_stack: m.title_stack.push(
            match m.title {
                Some(t) => t,
                None => Seq::empty(),
            },
        ),
        ..m
    }
}

pub open spec fn spec_restore_title(m: ScreenModel) -> ScreenModel {
    if m.title_stack.len() > 0 {
        ScreenModel {
            title: Some(m.title_stack.last()),
            title_stack: m.title_stack.drop_last(),
            ..m
        }
    } else {
        m
    }
}

pub open spec fn spec_set_path(m: ScreenModel, path: Seq<u8>) -> ScreenModel {
    ScreenModel { path: Some(path), ..m }
}

pub open spec fn spec_set_clipboard(
    m: ScreenModel,
    clipboard: ClipboardType,
    data: Seq<u8>,
) -> ScreenModel {
    ScreenModel {
        clipboard_data: m.clipboard_data.update(spec_clipboard_slot(clipboard), data),
        clipboard_set: m.clipboard_set.update(spec_clipboard_slot(clipboard), true),
        ..m
    }
}

/// What `get_clipboard` returns.
pub open spec fn spec_clipboard_of(m: ScreenModel, clipboard: ClipboardType) -> Option<Seq<u8>> {
    if m.clipboard_set[spec_clipboard_slot(clipboard)] {
        Some(m.clipboard_data[spec_clipboard_slot(clipboard)])
    } else {
        None
    }
}

pub open spec fn spec_set_cursor_style(m: ScreenModel, style: CursorStyle) -> ScreenModel {
    ScreenModel { cursor_style: style, ..m }
}

pub open spec fn spec_set_keypad_application_mode(m: ScreenModel, value: bool) -> ScreenModel {
    ScreenModel { keypad_application_mode: value, ..m }
}

pub open spec fn spec_set_color(m: ScreenModel, index: u8, color: RgbColor) -> ScreenModel {
    ScreenModel { palette: m.palette.update(index as int, Some(color)), ..m }
}

pub open spec fn spec_reset_color(m: ScreenModel, index: u8) -> ScreenModel {
    ScreenModel { palette: m.palette.update(index as int, None), ..m }
}

pub open spec fn spec_reset_all_colors(m: ScreenModel) -> ScreenModel {
    ScreenModel { palette: Seq::new(m.palette.len(), |i: int| None), ..m }
}

pub open spec fn spec_set_special_color(
    m: ScreenModel,
    index: crate::color::SpecialColor,
    color: Option<RgbColor>,
) -> ScreenModel {
    match index {
        crate::color::SpecialColor::Foreground => ScreenModel { special_fg: color, ..m },
        crate::color::SpecialColor::Background => ScreenModel { special_bg: color, ..m },
        crate::color::SpecialColor::Cursor => ScreenModel { special_cursor: color, ..m },
    }
}

pub open spec fn spec_special_color_of(m: ScreenModel, index: crate::color::SpecialColor) -> Option<
    RgbColor,
> {
    match index {
        crate::color::SpecialColor::Foreground => m.special_fg,
        crate::color::SpecialColor::Background => m.special_bg,
        crate::color::SpecialColor::Cursor => m.special_cursor,
    }
}

/// How one SGR attribute operation rewrites the cell template.
pub open spec fn spec_apply_sgr(t: Attributes, attr: Attribute) -> Attributes {
    match attr {
        Attribute::Reset => Attributes::spec_default(),
        Attribute::Bold => Attributes { flags: Flags { bold: true, ..t.flags }, ..t },
        Attribute::Dim => Attributes { flags: Flags { dim: true, ..t.flags }, ..t },
        Attribute::Italic => Attributes { flags: Flags { italic: true, ..t.flags }, ..t },
        Attribute::Underline => Attributes { flags: Flags { underline: true, ..t.flags }, ..t },
        Attribute::BlinkSlow => Attributes {
            flags: Flags { blink_slow: true, blink_fast: false, ..t.flags },
            ..t
        },
        Attribute::BlinkFast => Attributes {
            flags: Flags { blink_fast: true, blink_slow: false, ..t.flags },
            ..t
        },
        Attribute::Reverse => Attributes { flags: Flags { inverse: true, ..t.flags }, ..t },
        Attribute::Hidden => Attributes { flags: Flags { hidden: true, ..t.flags }, ..t },
        Attribute::Strike => Attributes { flags: Flags { strikeout: true, ..t.flags }, ..t },
        Attribute::CancelBold => Attributes { flags: Flags { bold: false, ..t.flags }, ..t },
        Attribute::CancelBoldDim => Attributes {
            flags: Flags { bold: false, dim: false, ..t.flags },
            ..t
        },
        Attribute::CancelItalic => Attributes { flags: Flags { italic: false, ..t.flags }, ..t },
        Attribute::CancelUnderline => Attributes {
            flags: Flags { underline: false, ..t.flags },
            ..t
        },
        Attribute::CancelBlink => Attributes {
            flags: Flags { blink_slow: false, blink_fast: false, ..t.flags },
            ..t
        },
        Attribute::CancelReverse => Attributes { flags: Flags { inverse: false, ..t.flags }, ..t },
        Attribute::CancelHidden => Attributes { flags: Flags { hidden: false, ..t.flags }, ..t },
        Attribute::CancelStrike => Attributes {
            flags: Flags { strikeout: false, ..t.flags },
            ..t
        },
        Attribute::Foreground(c) => Attributes { fg: c, ..t },
        Attribute::Background(c) => Attributes { bg: c, ..t },
    }
}

pub open spec fn spec_sgr_attribute(m: ScreenModel, attr: Attribute) -> ScreenModel {
    ScreenModel { template: spec_apply_sgr(m.template, attr), ..m }
}

// ---------------------------------------------------------------------------
// Transitions that touch the grid.
// ---------------------------------------------------------------------------

/// Writing one printable character: map it through the active charset, put
/// it at the cursor with the current template, and advance the cursor. At
/// the last column the cursor wraps to the next line when line wrap is on
/// (scrolling at the bottom of the region) and stays put otherwise, so that
/// the next printable overwrites the last column.
pub open spec fn spec_put_char(m: ScreenModel, ch: char) -> ScreenModel {
    let mapped = spec_map_char(m.charsets.spec_get(m.active_charset), ch);
    let cell = Cell { ch: Some(mapped), attributes: m.template };
    let written = ScreenModel {
        rows: m.rows.update(
            m.cursor.y as int,
            m.rows[m.cursor.y as int].update(m.cursor.x as int, cell),
        ),
        ..m
    };
    if m.cursor.x + 1 < m.size.x {
        ScreenModel {
            cursor: Point { x: (m.cursor.x + 1) as usize, y: m.cursor.y },
            ..written
        }
    } else if m.modes.line_wrap {
        spec_line_advance(ScreenModel { cursor: Point { x: 0, y: m.cursor.y }, ..written })
    } else {
        written
    }
}

/// One backspace: erase the character under the cursor (its attributes
/// stay), then step the cursor one cell back, wrapping to the end of the
/// previous row; at the origin the cursor stays.
pub open spec fn spec_backspace_step(m: ScreenModel) -> ScreenModel {
    let oldcell = m.rows[m.cursor.y as int][m.cursor.x as int];
    let erased = ScreenModel {
        rows: m.rows.update(
            m.cursor.y as int,
            m.rows[m.cursor.y as int].update(
                m.cursor.x as int,
                Cell { ch: None, attributes: oldcell.attributes },
            ),
        ),
        ..m
    };
    if m.cursor.x > 0 {
        ScreenModel { cursor: Point { x: (m.cursor.x - 1) as usize, y: m.cursor.y }, ..erased }
    } else if m.cursor.y > 0 {
        ScreenModel {
            cursor: Point { x: (m.size.x - 1) as usize, y: (m.cursor.y - 1) as usize },
            ..erased
        }
    } else {
        erased
    }
}

pub open spec fn spec_put_backspace(m: ScreenModel, count: nat) -> ScreenModel
    decreases count,
{
    if count == 0 {
        m
    } else {
        spec_backspace_step(spec_put_backspace(m, (count - 1) as nat))
    }
}

/// The column of the next tabstop after `x`, or the last column if there is
/// none before the end of the line.
pub open spec fn spec_next_tab_col(tabs: Seq<bool>, x: int, w: int) -> int
    decreases w - x,
{
    if x + 1 >= w {
        w - 1
    } else if tabs[x + 1] {
        x + 1
    } else {
        spec_next_tab_col(tabs, x + 1, w)
    }
}

pub open spec fn spec_tab_step(m: ScreenModel) -> ScreenModel {
    ScreenModel {
        cursor: Point {
            x: spec_next_tab_col(m.tabstops, m.cursor.x as int, m.size.x as int) as usize,
            y: m.cursor.y,
        },
        ..m
    }
}

pub open spec fn spec_put_tab(m: ScreenModel, count: nat) -> ScreenModel
    decreases count,
{
    if count == 0 {
        m
    } else {
        spec_tab_step(spec_put_tab(m, (count - 1) as nat))
    }
}

/// The column of the last tabstop before `x`, or the first column if there
/// is none.
pub open spec fn spec_prev_tab_col(tabs: Seq<bool>, x: int) -> int
    decreases x,
{
    if x <= 0 {
        0
    } else if tabs[x - 1] {
        x - 1
    } else {
        spec_prev_tab_col(tabs, x - 1)
    }
}

pub open spec fn spec_back_tab_step(m: ScreenModel) -> ScreenModel {
    ScreenModel {
        cursor: Point {
            x: spec_prev_tab_col(m.tabstops, m.cursor.x as int) as usize,
            y: m.cursor.y,
        },
        ..m
    }
}

pub open spec fn spec_move_backward_tabs(m: ScreenModel, count: nat) -> ScreenModel
    decreases count,
{
    if count == 0 {
        m
    } else {
        spec_back_tab_step(spec_move_backward_tabs(m, (count - 1) as nat))
    }
}

pub open spec fn spec_insert_blank(m: ScreenModel, count: usize) -> ScreenModel {
    let k = if count > m.size.x - m.cursor.x {
        (m.size.x - m.cursor.x) as int
    } else {
        count as int
    };
    if k == 0 {
        m
    } else {
        ScreenModel {
            rows: m.rows.update(
                m.cursor.y as int,
                inserted_row(m.rows[m.cursor.y as int], m.cursor.x as int, k, m.blank()),
            ),
            ..m
        }
    }
}

pub open spec fn spec_delete_chars(m: ScreenModel, count: usize) -> ScreenModel {
    let k = if count > m.size.x - m.cursor.x {
        (m.size.x - m.cursor.x) as int
    } else {
        count as int
    };
    if k == 0 {
        m
    } else {
        ScreenModel {
            rows: m.rows.update(
                m.cursor.y as int,
                deleted_row(m.rows[m.cursor.y as int], m.cursor.x as int, k, m.blank()),
            ),
            ..m
        }
    }
}

pub open spec fn spec_erase_chars(m: ScreenModel, count: usize) -> ScreenModel {
    let stop = if count > m.size.x - m.cursor.x {
        m.size.x as int
    } else {
        m.cursor.x + count
    };
    ScreenModel {
        rows: m.rows.update(
            m.cursor.y as int,
            filled_row(m.rows[m.cursor.y as int], m.cursor.x as int, stop, m.blank()),
        ),
        ..m
    }
}

/// Blank rows slide in from below the cursor: rows at and below the cursor
/// down to the bottom of the scrolling region move down. Outside the
/// region the screen is unchanged.
pub open spec fn spec_insert_blank_lines(m: ScreenModel, count: usize) -> ScreenModel {
    if count >= 1 && m.scroll_top <= m.cursor.y <= m.scroll_bottom {
        ScreenModel {
            rows: scrolled_down(
                m.rows,
                m.cursor.y as int,
                m.scroll_bottom as int,
                count as int,
                full_row(m.size.x as int, m.blank()),
            ),
            ..m
        }
    } else {
        m
    }
}

/// Rows below the cursor move up within the scrolling region; blank rows
/// enter at the bottom of the region.
pub open spec fn spec_delete_lines(m: ScreenModel, count: usize) -> ScreenModel {
    if count >= 1 && m.scroll_top <= m.cursor.y <= m.scroll_bottom {
        ScreenModel {
            rows: scrolled_up(
                m.rows,
                m.cursor.y as int,
                m.scroll_bottom as int,
                count as int,
                full_row(m.size.x as int, m.blank()),
            ),
            ..m
        }
    } else {
        m
    }
}

pub open spec fn spec_scroll_up(m: ScreenModel, count: usize) -> ScreenModel {
    if count >= 1 {
        ScreenModel {
            rows: scrolled_up(
                m.rows,
                m.scroll_top as int,
                m.scroll_bottom as int,
                count as int,
                full_row(m.size.x as int, m.blank()),
            ),
            ..m
        }
    } else {
        m
    }
}

pub open spec fn spec_scroll_down(m: ScreenModel, count: usize) -> ScreenModel {
    if count >= 1 {
        ScreenModel {
            rows: scrolled_down(
                m.rows,
                m.scroll_top as int,
                m.scroll_bottom as int,
                count as int,
                full_row(m.size.x as int, m.blank()),
            ),
            ..m
        }
    } else {
        m
    }
}

pub open spec fn spec_clear_screen(m: ScreenModel, mode: ClearScreenMode) -> ScreenModel {
    match mode {
        ClearScreenMode::Below => ScreenModel {
            rows: Seq::new(
                m.rows.len(),
                |j: int| if j == m.cursor.y {
                    filled_row(m.rows[j], m.cursor.x as int, m.size.x as int, m.blank())
                } else if j > m.cursor.y {
                    full_row(m.size.x as int, m.blank())
                } else {
                    m.rows[j]
                },
            ),
            ..m
        },
        ClearScreenMode::Above => ScreenModel {
            rows: Seq::new(
                m.rows.len(),
                |j: int| if j == m.cursor.y {
                    filled_row(m.rows[j], 0, m.cursor.x + 1, m.blank())
                } else if j < m.cursor.y {
                    full_row(m.size.x as int, m.blank())
                } else {
                    m.rows[j]
                },
            ),
            ..m
        },
        _ => ScreenModel {
            rows: Seq::new(m.rows.len(), |j: int| full_row(m.size.x as int, m.blank())),
            ..m
        },
    }
}

pub open spec fn spec_clear_line(m: ScreenModel, mode: ClearLineMode) -> ScreenModel {
    let row = m.rows[m.cursor.y as int];
    let cleared = match mode {
        ClearLineMode::Right => filled_row(row, m.cursor.x as int, m.size.x as int, m.blank()),
        ClearLineMode::Left => filled_row(row, 0, m.cursor.x + 1, m.blank()),
        ClearLineMode::All => filled_row(row, 0, m.size.x as int, m.blank()),
    };
    ScreenModel { rows: m.rows.update(m.cursor.y as int, cleared), ..m }
}

/// The alignment test fills the whole screen with `E` cells carrying the
/// current template.
pub open spec fn spec_alignment_test(m: ScreenModel) -> ScreenModel {
    ScreenModel {
        rows: Seq::new(
            m.rows.len(),
            |j: int| full_row(m.size.x as int, Cell { ch: Some('E'), attributes: m.template }),
        ),
        ..m
    }
}

/// Move up one row; at the top of the scrolling region the region scrolls
/// down instead.
pub open spec fn spec_reverse_index(m: ScreenModel) -> ScreenModel {
    if m.cursor.y == m.scroll_top {
        ScreenModel {
            rows: scrolled_down(
                m.rows,
                m.scroll_top as int,
                m.scroll_bottom as int,
                1,
                full_row(m.size.x as int, m.blank()),
            ),
            ..m
        }
    } else {
        spec_move_up(m, 1)
    }
}

/// Reset cursor, template, charsets, tabstops, modes, scrolling region, and
/// the grid; titles, path, clipboards, and color overrides stay.
pub open spec fn spec_reset_state(m: ScreenModel) -> ScreenModel {
    ScreenModel {
        rows: Seq::new(m.rows.len(), |j: int| full_row(m.size.x as int, Cell::spec_default())),
        tabstops: Seq::new(m.tabstops.len(), |i: int| false),
        cursor: Point { x: 0, y: 0 },
        template: Attributes::spec_default(),
        charsets: CharsetList::spec_default(),
        active_charset: CharsetIndex::G0,
        scroll_top: 0,
        scroll_bottom: (m.size.y - 1) as usize,
        saved_cursor: Point { x: 0, y: 0 },
        modes: ModeSet::spec_default(),
        cursor_style: CursorStyle::Default,
        keypad_application_mode: false,
        ..m
    }
}

// ---------------------------------------------------------------------------
// The screen itself.
// ---------------------------------------------------------------------------

pub struct Screen {
    pub grid: Grid,
    pub size: Point,
    pub cursor: Point,
    pub cell_template: Attributes,
    pub charsets: CharsetList,
    pub active_charset: CharsetIndex,
    pub scroll_top: usize,
    pub scroll_bottom: usize,
    pub saved_cursor: Point,
    pub title: Option<Vec<u8>>,
    pub title_stack: Vec<Vec<u8>>,
    pub path: Option<Vec<u8>>,
    pub clipboard_data: Vec<Vec<u8>>,
    pub clipboard_set: Vec<bool>,
    pub palette: Vec<Option<RgbColor>>,
    pub special_fg: Option<RgbColor>,
    pub special_bg: Option<RgbColor>,
    pub special_cursor: Option<RgbColor>,
    pub modes: ModeSet,
    pub cursor_style: CursorStyle,
    pub keypad_application_mode: bool,
}

impl View for Screen {
    type V = ScreenModel;

    open spec fn view(&self) -> ScreenModel {
        ScreenModel {
            size: self.size,
            rows: self.grid.rows(),
            tabstops: self.grid.tabstops@,
            cursor: self.cursor,
            template: self.cell_template,
            charsets: self.charsets,
            active_charset: self.active_charset,
            scroll_top: self.scroll_top,
            scroll_bottom: self.scroll_bottom,
            saved_cursor: self.saved_cursor,
            title: opt_bytes(self.title),
            title_stack: self.title_stack@.map(|i: int, v: Vec<u8>| v@),
            path: opt_bytes(self.path),
            clipboard_data: self.clipboard_data@.map(|i: int, v: Vec<u8>| v@),
            clipboard_set: self.clipboard_set@,
            palette: self.palette@,
            special_fg: self.special_fg,
            special_bg: self.special_bg,
            special_cursor: self.special_cursor,
            modes: self.modes,
            cursor_style: self.cursor_style,
            keypad_application_mode: self.keypad_application_mode,
        }
    }
}

impl Screen {
    /// The concrete screen is well formed when its grid is and its model is.
    pub open spec fn wf(&self) -> bool {
        &&& self.grid.wf()
        &&& self.grid.size == self.size
        &&& self@.wf()
    }

    /// What a fresh screen of the given size looks like.
    pub open spec fn spec_new(size: Point) -> ScreenModel {
        ScreenModel {
            size,
            rows: Seq::new(size.y as nat, |y: int| full_row(size.x as int, Cell::spec_default())),
            tabstops: Seq::new(size.x as nat, |i: int| false),
            cursor: Point { x: 0, y: 0 },
            template: Attributes::spec_default(),
            charsets: CharsetList::spec_default(),
            active_charset: CharsetIndex::G0,
            scroll_top: 0,
            scroll_bottom: (size.y - 1) as usize,
            saved_cursor: Point { x: 0, y: 0 },
            title: None,
            title_stack: Seq::empty(),
            path: None,
            clipboard_data: Seq::new(CLIPBOARD_SLOTS as nat, |i: int| Seq::empty()),
            clipboard_set: Seq::new(CLIPBOARD_SLOTS as nat, |i: int| false),
            palette: Seq::new(PALETTE_SLOTS as nat, |i: int| None),
            special_fg: None,
            special_bg: None,
            special_cursor: None,
            modes: ModeSet::spec_default(),
            cursor_style: CursorStyle::Default,
            keypad_application_mode: false,
        }
    }

    /// A fresh screen: empty grid, home cursor, default attributes, full
    /// scrolling region.
    pub fn new(size: Point) -> (r: Screen)
        requires
            1 <= size.x < COORD_LIMIT,
            1 <= size.y < COORD_LIMIT,
        ensures
            r.wf(),
            r@ =~~= Screen::spec_new(size),
    {
        let grid = Grid::new(size);
        let mut clipboard_data: Vec<Vec<u8>> = Vec::new();
        let mut clipboard_set: Vec<bool> = Vec::new();
        let mut i: usize = 0;
        while i < CLIPBOARD_SLOTS
            invariant
                i <= CLIPBOARD_SLOTS,
                clipboard_data@.len() == i,
                clipboard_set@.len() == i,
                forall|j: int| 0 <= j < i ==> (#[trigger] clipboard_data@[j])@ == Seq::<u8>::empty(),
                forall|j: int| 0 <= j < i ==> clipboard_set@[j] == false,
            decreases CLIPBOARD_SLOTS - i,
        {
            clipboard_data.push(Vec::new());
            clipboard_set.push(false);
            i += 1;
        }
        let mut palette: Vec<Option<RgbColor>> = Vec::new();
        let mut k: usize = 0;
        while k < PALETTE_SLOTS
            invariant
                k <= PALETTE_SLOTS,
                palette@.len() == k,
                forall|j: int| 0 <= j < k ==> palette@[j] == None::<RgbColor>,
            decreases PALETTE_SLOTS - k,
        {
            palette.push(None);
            k += 1;
        }
        let r = Screen {
            grid,
            size,
            cursor: Point { x: 0, y: 0 },
            cell_template: Attributes::default(),
            charsets: CharsetList::default(),
            active_charset: CharsetIndex::G0,
            scroll_top: 0,
            scroll_bottom: size.y - 1,
            saved_cursor: Point { x: 0, y: 0 },
            title: None,
            title_stack: Vec::new(),
            path: None,
            clipboard_data,
            clipboard_set,
            palette,
            special_fg: None,
            special_bg: None,
            special_cursor: None,
            modes: ModeSet::default_modes(),
            cursor_style: CursorStyle::Default,
            keypad_application_mode: false,
        };
        proof {
            assert(r@.title_stack =~= Seq::<Seq<u8>>::empty());
            assert(r@.clipboard_data =~~= Seq::new(CLIPBOARD_SLOTS as nat, |i: int| Seq::<u8>::empty()));
            assert(r@.clipboard_set =~= Seq::new(CLIPBOARD_SLOTS as nat, |i: int| false));
            assert(r@.palette =~= Seq::new(PALETTE_SLOTS as nat, |i: int| None::<RgbColor>));
            assert(r@ =~~= Screen::spec_new(size));
        }
        r
    }

    /// The cell at `point`, if it is on the grid.
    pub fn cell(&self, point: Point) -> (r: Option<Cell>)
        requires
            self.wf(),
        ensures
            r == if point.y < self.size.y && point.x < self.size.x {
                Some(self@.rows[point.y as int][point.x as int])
            } else {
                None::<Cell>
            },
    {
        self.grid.cell(point)
    }

    /// Step the cursor one cell forward row-major, stopping at the last cell.
    pub fn cursor_next(&mut self)
        requires
            old(self).wf(),
        ensures
            final(self).wf(),
            final(self)@ =~~= (ScreenModel {
                cursor: if old(self).cursor.x + 1 < old(self).size.x {
                    Point { x: (old(self).cursor.x + 1) as usize, y: old(self).cursor.y }
                } else if old(self).cursor.y + 1 < old(self).size.y {
                    Point { x: 0, y: (old(self).cursor.y + 1) as usize }
                } else {
                    old(self).cursor
                },
                ..old(self)@
            }),
    {
        if self.cursor.x + 1 < self.size.x {
            self.cursor = Point { x: self.cursor.x + 1, y: self.cursor.y };
        } else if self.cursor.y + 1 < self.size.y {
            self.cursor = Point { x: 0, y: self.cursor.y + 1 };
        }
    }

    /// Step the cursor one cell backward row-major, stopping at the origin.
    pub fn cursor_prev(&mut self)
        requires
            old(self).wf(),
        ensures
            final(self).wf(),
            final(self)@ =~~= (ScreenModel {
                cursor: if old(self).cursor.x > 0 {
                    Point { x: (old(self).cursor.x - 1) as usize, y: old(self).cursor.y }
                } else if old(self).cursor.y > 0 {
                    Point {
                        x: (old(self).size.x - 1) as usize,
                        y: (old(self).cursor.y - 1) as usize,
                    }
                } else {
                    old(self).cursor
                },
                ..old(self)@
            }),
    {
        if self.cursor.x > 0 {
            self.cursor = Point { x: self.cursor.x - 1, y: self.cursor.y };
        } else if self.cursor.y > 0 {
            self.cursor = Point { x: self.size.x - 1, y: self.cursor.y - 1 };
        }
    }

    /// Move the cursor to column zero.
    pub fn put_cr(&mut self)
        requires
            old(self).wf(),
        ensures
            final(self).wf(),
            final(self)@ =~~= spec_put_cr(old(self)@),
    {
        self.cursor = Point { x: 0, y: self.cursor.y };
    }

    /// Save the cursor position in the single save slot.
    pub fn save_cursor_position(&mut self)
        requires
            old(self).wf(),
        ensures
            final(self).wf(),
            final(self)@ =~~= spec_save_cursor(old(self)@),
    {
        self.saved_cursor = self.cursor;
    }

    /// Restore the cursor from the save slot; before any save that is the
    /// origin.
    pub fn restore_cursor_position(&mut self)
        requires
            old(self).wf(),
        ensures
            final(self).wf(),
            final(self)@ =~~= spec_restore_cursor(old(self)@),
    {
        self.cursor = self.saved_cursor;
    }

    /// Move the cursor up, stopping at the first row.
    pub fn move_up(&mut self, count: usize)
        requires
            old(self).wf(),
        ensures
            final(self).wf(),
            final(self)@ =~~= spec_move_up(old(self)@, count),
    {
        if count > self.cursor.y {
            self.cursor = Point { x: self.cursor.x, y: 0 };
        } else {
            self.cursor = Point { x: self.cursor.x, y: self.cursor.y - count };
        }
    }

    /// Move the cursor down, stopping at the last row.
    pub fn move_down(&mut self, count: usize)
        requires
            old(self).wf(),
        ensures
            final(self).wf(),
            final(self)@ =~~= spec_move_down(old(self)@, count),
    {
        if count >= self.size.y - self.cursor.y {
            self.cursor = Point { x: self.cursor.x, y: self.size.y - 1 };
        } else {
            self.cursor = Point { x: self.cursor.x, y: self.cursor.y + count };
        }
    }

    /// Move the cursor forward, stopping at the last column.
    pub fn move_forward(&mut self, count: usize)
        requires
            old(self).wf(),
        ensures
            final(self).wf(),
            final(self)@ =~~= spec_move_forward(old(self)@, count),
    {
        if count >= self.size.x - self.cursor.x {
            self.cursor = Point { x: self.size.x - 1, y: self.cursor.y };
        } else {
            self.cursor = Point { x: self.cursor.x + count, y: self.cursor.y };
        }
    }

    /// Move the cursor backward, stopping at the first column.
    pub fn move_backward(&mut self, count: usize)
        requires
            old(self).wf(),
        ensures
            final(self).wf(),
            final(self)@ =~~= spec_move_backward(old(self)@, count),
    {
        if count > self.cursor.x {
            self.cursor = Point { x: 0, y: self.cursor.y };
        } else {
            self.cursor = Point { x: self.cursor.x - count, y: self.cursor.y };
        }
    }

    /// Go to the given column, clamped to the grid.
    pub fn goto_column(&mut self, column: usize)
        requires
            old(self).wf(),
        ensures
            final(self).wf(),
            final(self)@ =~~= spec_goto_column(old(self)@, column),
    {
        if column >= self.size.x {
            self.cursor = Point { x: self.size.x - 1, y: self.cursor.y };
        } else {
            self.cursor = Point { x: column, y: self.cursor.y };
        }
    }

    /// Go to the given line, clamped to the grid.
    pub fn goto_line(&mut self, line: usize)
        requires
            old(self).wf(),
        ensures
            final(self).wf(),
            final(self)@ =~~= spec_goto_line(old(self)@, line),
    {
        if line >= self.size.y {
            self.cursor = Point { x: self.cursor.x, y: self.size.y - 1 };
        } else {
            self.cursor = Point { x: self.cursor.x, y: line };
        }
    }

    /// Go to the given line and column, clamped to the grid.
    pub fn goto(&mut self, line: usize, column: usize)
        requires
            old(self).wf(),
        ensures
            final(self).wf(),
            final(self)@ =~~= spec_goto(old(self)@, line, column),
    {
        self.goto_line(line);
        self.goto_column(column);
    }

    /// Set the scrolling region from 1-based inclusive bounds; 0 selects the
    /// default edge; an inverted region is ignored.
    #[verifier::rlimit(100)]
    #[verifier::spinoff_prover]
    pub fn set_scrolling_region(&mut self, top: usize, bottom: usize)
        requires
            old(self).wf(),
        ensures
            final(self).wf(),
            final(self)@ =~~= spec_set_scrolling_region(old(self)@, top, bottom),
    {
        let t0: usize = if top == 0 {
            0
        } else {
            top - 1
        };
        let b_eff: usize = if bottom == 0 || bottom > self.size.y {
            self.size.y
        } else {
            bottom
        };
        let b0: usize = b_eff - 1;
        if t0 <= b0 && b0 < self.size.y {
            self.scroll_top = t0;
            self.scroll_bottom = b0;
            proof {
                let target = spec_set_scrolling_region(old(self)@, top, bottom);
                assert(target.scroll_top == t0 && target.scroll_bottom == b0);
                assert(self@ =~~= target);
            }
        } else {
            proof {
                let target = spec_set_scrolling_region(old(self)@, top, bottom);
                assert(target == old(self)@);
                assert(self@ =~~= target);
            }
        }
    }

    /// Switch a terminal mode on.
    pub fn set_mode(&mut self, mode: TerminalMode)
        requires
            old(self).wf(),
        ensures
            final(self).wf(),
            final(self)@ =~~= spec_set_mode(old(self)@, mode, true),
    {
        self.modes.set(mode, true);
    }

    /// Switch a terminal mode off.
    pub fn unset_mode(&mut self, mode: TerminalMode)
        requires
            old(self).wf(),
        ensures
            final(self).wf(),
            final(self)@ =~~= spec_set_mode(old(self)@, mode, false),
    {
        self.modes.set(mode, false);
    }

    /// Make the given slot the active charset.
    pub fn set_active_charset(&mut self, index: CharsetIndex)
        requires
            old(self).wf(),
        ensures
            final(self).wf(),
            final(self)@ =~~= spec_set_active_charset(old(self)@, index),
    {
        self.active_charset = index;
    }

    /// Designate a charset to a slot.
    pub fn configure_charset(&mut self, index: CharsetIndex, charset: StandardCharset)
        requires
            old(self).wf(),
        ensures
            final(self).wf(),
            final(self)@ =~~= spec_configure_charset(old(self)@, index, charset),
    {
        self.charsets.set(index, charset);
    }

    /// Record the window title.
    pub fn set_title(&mut self, title: Vec<u8>)
        requires
            old(self).wf(),
        ensures
            final(self).wf(),
            final(self)@ =~~= spec_set_title(old(self)@, title@),
    {
        self.title = Some(title);
    }

    /// Push the current title (empty if none was ever set) onto the stack.
    pub fn save_title(&mut self)
        requires
            old(self).wf(),
        ensures
            final(self).wf(),
            final(self)@ =~~= spec_save_title(old(self)@),
    {
        let t: Vec<u8> = match &self.title {
            Some(t) => copy_bytes(t),
            None => Vec::new(),
        };
        let ghost old_stack = self.title_stack@;
        self.title_stack.push(t);
        proof {
            assert(self.title_stack@.map(|i: int, v: Vec<u8>| v@) =~~= old_stack.map(
                |i: int, v: Vec<u8>| v@,
            ).push(t@));
        }
    }

    /// Pop the title stack into the current title; an empty stack changes
    /// nothing.
    pub fn restore_title(&mut self)
        requires
            old(self).wf(),
        ensures
            final(self).wf(),
            final(self)@ =~~= spec_restore_title(old(self)@),
    {
        let ghost old_stack = self.title_stack@;
        match self.title_stack.pop() {
            Some(t) => {
                self.title = Some(t);
                proof {
                    assert(self.title_stack@.map(|i: int, v: Vec<u8>| v@) =~~= old_stack.map(
                        |i: int, v: Vec<u8>| v@,
                    ).drop_last());
                }
            },
            None => {},
        }
    }

    /// Record the working directory reported by the child.
    pub fn set_path(&mut self, path: Vec<u8>)
        requires
            old(self).wf(),
        ensures
            final(self).wf(),
            final(self)@ =~~= spec_set_path(old(self)@, path@),
    {
        self.path = Some(path);
    }

    /// Store data in a clipboard slot.
    pub fn set_clipboard(&mut self, clipboard: ClipboardType, data: Vec<u8>)
        requires
            old(self).wf(),
        ensures
            final(self).wf(),
            final(self)@ =~~= spec_set_clipboard(old(self)@, clipboard, data@),
    {
        let slot = clipboard.slot();
        let ghost old_data = self.clipboard_data@;
        self.clipboard_data[slot] = data;
        self.clipboard_set[slot] = true;
        proof {
            assert(self.clipboard_data@.map(|i: int, v: Vec<u8>| v@) =~~= old_data.map(
                |i: int, v: Vec<u8>| v@,
            ).update(spec_clipboard_slot(clipboard), data@));
        }
    }

    /// Load data from a clipboard slot, if any was stored.
    pub fn get_clipboard(&self, clipboard: ClipboardType) -> (r: Option<Vec<u8>>)
        requires
            self.wf(),
        ensures
            match r {
                Some(v) => spec_clipboard_of(self@, clipboard) == Some(v@),
                None => spec_clipboard_of(self@, clipboard) is None,
            },
    {
        let slot = clipboard.slot();
        if self.clipboard_set[slot] {
            Some(copy_bytes(&self.clipboard_data[slot]))
        } else {
            None
        }
    }

    /// Set the cursor style.
    pub fn set_cursor_style(&mut self, style: CursorStyle)
        requires
            old(self).wf(),
        ensures
            final(self).wf(),
            final(self)@ =~~= spec_set_cursor_style(old(self)@, style),
    {
        self.cursor_style = style;
    }

    /// Enter keypad application mode.
    pub fn set_keypad_application_mode(&mut self)
        requires
            old(self).wf(),
        ensures
            final(self).wf(),
            final(self)@ =~~= spec_set_keypad_application_mode(old(self)@, true),
    {
        self.keypad_application_mode = true;
    }

    /// Leave keypad application mode.
    pub fn unset_keypad_application_mode(&mut self)
        requires
            old(self).wf(),
        ensures
            final(self).wf(),
            final(self)@ =~~= spec_set_keypad_application_mode(old(self)@, false),
    {
        self.keypad_application_mode = false;
    }

    /// Override the palette entry for an index.
    pub fn set_color(&mut self, index: u8, color: RgbColor)
        requires
            old(self).wf(),
        ensures
            final(self).wf(),
            final(self)@ =~~= spec_set_color(old(self)@, index, color),
    {
        self.palette[index as usize] = Some(color);
    }

    /// The palette override for an index, if one is set.
    pub fn get_color(&self, index: u8) -> (r: Option<RgbColor>)
        requires
            self.wf(),
        ensures
            r == self@.palette[index as int],
    {
        self.palette[index as usize]
    }

    /// Drop the palette override for an index.
    pub fn reset_color(&mut self, index: u8)
        requires
            old(self).wf(),
        ensures
            final(self).wf(),
            final(self)@ =~~= spec_reset_color(old(self)@, index),
    {
        self.palette[index as usize] = None;
    }

    /// Drop every palette override.
    pub fn reset_all_colors(&mut self)
        requires
            old(self).wf(),
        ensures
            final(self).wf(),
            final(self)@ =~~= spec_reset_all_colors(old(self)@),
    {
        let mut i: usize = 0;
        while i < PALETTE_SLOTS
            invariant
                old(self).wf(),
                i <= PALETTE_SLOTS,
                self.palette@.len() == PALETTE_SLOTS,
                forall|j: int| 0 <= j < i ==> self.palette@[j] == None::<RgbColor>,
                forall|j: int| i <= j < PALETTE_SLOTS ==> self.palette@[j] == old(self).palette@[j],
                *self == (Screen { palette: self.palette, ..*old(self) }),
            decreases PALETTE_SLOTS - i,
        {
            self.palette[i] = None;
            i += 1;
        }
        proof {
            assert(self@.palette =~= spec_reset_all_colors(old(self)@).palette);
        }
    }

    /// Override a special color.
    pub fn set_special_color(&mut self, index: crate::color::SpecialColor, color: RgbColor)
        requires
            old(self).wf(),
        ensures
            final(self).wf(),
            final(self)@ =~~= spec_set_special_color(old(self)@, index, Some(color)),
    {
        match index {
            crate::color::SpecialColor::Foreground => self.special_fg = Some(color),
            crate::color::SpecialColor::Background => self.special_bg = Some(color),
            crate::color::SpecialColor::Cursor => self.special_cursor = Some(color),
        }
    }

    /// The override for a special color, if one is set.
    pub fn get_special_color(&self, index: crate::color::SpecialColor) -> (r: Option<RgbColor>)
        requires
            self.wf(),
        ensures
            r == spec_special_color_of(self@, index),
    {
        match index {
            crate::color::SpecialColor::Foreground => self.special_fg,
            crate::color::SpecialColor::Background => self.special_bg,
            crate::color::SpecialColor::Cursor => self.special_cursor,
        }
    }

    /// Drop the override for a special color.
    pub fn reset_special_color(&mut self, index: crate::color::SpecialColor)
        requires
            old(self).wf(),
        ensures
            final(self).wf(),
            final(self)@ =~~= spec_set_special_color(old(self)@, index, None),
    {
        match index {
            crate::color::SpecialColor::Foreground => self.special_fg = None,
            crate::color::SpecialColor::Background => self.special_bg = None,
            crate::color::SpecialColor::Cursor => self.special_cursor = None,
        }
    }

    /// Apply one SGR attribute operation to the cell template.
    pub fn sgr_attribute(&mut self, attr: Attribute)
        requires
            old(self).wf(),
        ensures
            final(self).wf(),
            final(self)@ =~~= spec_sgr_attribute(old(self)@, attr),
    {
        self.cell_template = apply_sgr(self.cell_template, attr);
    }

    /// Trigger the terminal bell. The core keeps no bell state; the embedder
    /// reacts to the dispatched action itself.
    pub fn bell(&mut self)
        requires
            old(self).wf(),
        ensures
            final(self).wf(),
            final(self)@ =~~= old(self)@,
    {
    }

    /// Advance one line: scroll at the bottom of the region, move down
    /// elsewhere, stay on the last row.
    fn line_advance(&mut self)
        requires
            old(self).wf(),
        ensures
            final(self).wf(),
            final(self)@ =~~= spec_line_advance(old(self)@),
    {
        if self.cursor.y == self.scroll_bottom {
            let blank = Cell { ch: None, attributes: self.cell_template };
            self.grid.scroll_region_up(self.scroll_top, self.scroll_bottom, 1, blank);
        } else if self.cursor.y + 1 < self.size.y {
            self.cursor = Point { x: self.cursor.x, y: self.cursor.y + 1 };
        }
    }

    /// Write a printable character at the cursor and advance it.
    pub fn put_char(&mut self, ch: char)
        requires
            old(self).wf(),
        ensures
            final(self).wf(),
            final(self)@ =~~= spec_put_char(old(self)@, ch),
    {
        let mapped = self.charsets.get(self.active_charset).map(ch);
        let cell = Cell { ch: Some(mapped), attributes: self.cell_template };
        self.grid.cell_mut(self.cursor, cell);
        if self.cursor.x + 1 < self.size.x {
            self.cursor = Point { x: self.cursor.x + 1, y: self.cursor.y };
        } else if self.modes.line_wrap {
            self.cursor = Point { x: 0, y: self.cursor.y };
            self.line_advance();
        }
    }

    /// Erase and step back `count` times.
    pub fn put_backspace(&mut self, count: usize)
        requires
            old(self).wf(),
        ensures
            final(self).wf(),
            final(self)@ =~~= spec_put_backspace(old(self)@, count as nat),
    {
        let mut i: usize = 0;
        while i < count
            invariant
                self.wf(),
                i <= count,
                self@ =~~= spec_put_backspace(old(self)@, i as nat),
            decreases count - i,
        {
            let here = self.cursor;
            let oldcell = match self.grid.cell(here) {
                Some(c) => c,
                None => Cell::default(),
            };
            self.grid.cell_mut(here, Cell { ch: None, attributes: oldcell.attributes });
            if self.cursor.x > 0 {
                self.cursor = Point { x: self.cursor.x - 1, y: self.cursor.y };
            } else if self.cursor.y > 0 {
                self.cursor = Point { x: self.size.x - 1, y: self.cursor.y - 1 };
            }
            i += 1;
        }
    }

    /// The next tabstop column after `x`, or the last column.
    fn next_tab_col(&self, x: usize) -> (r: usize)
        requires
            self.wf(),
            x < self.size.x,
        ensures
            r == spec_next_tab_col(self@.tabstops, x as int, self@.size.x as int),
            r < self.size.x,
    {
        let w = self.size.x;
        let mut c = x;
        while c + 1 < w && !self.grid.tabstop(c + 1)
            invariant
                self.wf(),
                x <= c < self.size.x,
                w == self.size.x,
                spec_next_tab_col(self@.tabstops, x as int, w as int) == spec_next_tab_col(
                    self@.tabstops,
                    c as int,
                    w as int,
                ),
            decreases w - c,
        {
            c += 1;
        }
        if c + 1 < w {
            c + 1
        } else {
            w - 1
        }
    }

    /// The previous tabstop column before `x`, or the first column.
    fn prev_tab_col(&self, x: usize) -> (r: usize)
        requires
            self.wf(),
            x < self.size.x,
        ensures
            r == spec_prev_tab_col(self@.tabstops, x as int),
            r < self.size.x,
    {
        let mut c = x;
        while c > 0 && !self.grid.tabstop(c - 1)
            invariant
                self.wf(),
                c <= x < self.size.x,
                spec_prev_tab_col(self@.tabstops, x as int) == spec_prev_tab_col(
                    self@.tabstops,
                    c as int,
                ),
            decreases c,
        {
            c -= 1;
        }
        if c > 0 {
            c - 1
        } else {
            0
        }
    }

    /// Advance to the next `count` tabstops (or the end of the line).
    pub fn put_tab(&mut self, count: usize)
        requires
            old(self).wf(),
        ensures
            final(self).wf(),
            final(self)@ =~~= spec_put_tab(old(self)@, count as nat),
    {
        let mut i: usize = 0;
        while i < count
            invariant
                self.wf(),
                i <= count,
                self@ =~~= spec_put_tab(old(self)@, i as nat),
            decreases count - i,
        {
            let nx = self.next_tab_col(self.cursor.x);
            self.cursor = Point { x: nx, y: self.cursor.y };
            i += 1;
        }
    }

    /// Move forward `count` tab stops; the same walk as `put_tab`.
    pub fn move_forward_tabs(&mut self, count: usize)
        requires
            old(self).wf(),
        ensures
            final(self).wf(),
            final(self)@ =~~= spec_put_tab(old(self)@, count as nat),
    {
        self.put_tab(count);
    }

    /// Move backward `count` tab stops.
    pub fn move_backward_tabs(&mut self, count: usize)
        requires
            old(self).wf(),
        ensures
            final(self).wf(),
            final(self)@ =~~= spec_move_backward_tabs(old(self)@, count as nat),
    {
        let mut i: usize = 0;
        while i < count
            invariant
                self.wf(),
                i <= count,
                self@ =~~= spec_move_backward_tabs(old(self)@, i as nat),
            decreases count - i,
        {
            let px = self.prev_tab_col(self.cursor.x);
            self.cursor = Point { x: px, y: self.cursor.y };
            i += 1;
        }
    }

    /// Move to column zero of the next line, scrolling at the bottom of the
    /// scrolling region.
    pub fn put_lf(&mut self)
        requires
            old(self).wf(),
        ensures
            final(self).wf(),
            final(self)@ =~~= spec_put_lf(old(self)@),
    {
        self.cursor = Point { x: 0, y: self.cursor.y };
        self.line_advance();
    }

    /// Mark the column as a tabstop; out-of-range columns are ignored.
    pub fn set_horizontal_tabstop(&mut self, column: usize)
        requires
            old(self).wf(),
        ensures
            final(self).wf(),
            final(self)@ =~~= (ScreenModel {
                tabstops: if column < old(self).size.x {
                    old(self)@.tabstops.update(column as int, true)
                } else {
                    old(self)@.tabstops
                },
                ..old(self)@
            }),
    {
        self.grid.set_tabstop(column, true);
    }

    /// Unmark the column as a tabstop; out-of-range columns are ignored.
    pub fn unset_horizontal_tabstop(&mut self, column: usize)
        requires
            old(self).wf(),
        ensures
            final(self).wf(),
            final(self)@ =~~= (ScreenModel {
                tabstops: if column < old(self).size.x {
                    old(self)@.tabstops.update(column as int, false)
                } else {
                    old(self)@.tabstops
                },
                ..old(self)@
            }),
    {
        self.grid.set_tabstop(column, false);
    }

    /// Unmark every tabstop.
    pub fn unset_all_horizontal_tabstops(&mut self)
        requires
            old(self).wf(),
        ensures
            final(self).wf(),
            final(self)@ =~~= (ScreenModel {
                tabstops: Seq::new(old(self)@.tabstops.len(), |i: int| false),
                ..old(self)@
            }),
    {
        self.grid.clear_tabstops();
    }

    /// Insert blank cells at the cursor; the tail of the row shifts right.
    pub fn insert_blank(&mut self, count: usize)
        requires
            old(self).wf(),
        ensures
            final(self).wf(),
            final(self)@ =~~= spec_insert_blank(old(self)@, count),
    {
        if count == 0 {
            return;
        }
        let k = if count > self.size.x - self.cursor.x {
            self.size.x - self.cursor.x
        } else {
            count
        };
        let blank = Cell { ch: None, attributes: self.cell_template };
        self.grid.line_insert(self.cursor.y, self.cursor.x, k, blank);
    }

    /// Delete cells at the cursor; the tail shifts left, blanks fill the end.
    pub fn delete_chars(&mut self, count: usize)
        requires
            old(self).wf(),
        ensures
            final(self).wf(),
            final(self)@ =~~= spec_delete_chars(old(self)@, count),
    {
        if count == 0 {
            return;
        }
        let k = if count > self.size.x - self.cursor.x {
            self.size.x - self.cursor.x
        } else {
            count
        };
        let blank = Cell { ch: None, attributes: self.cell_template };
        self.grid.line_delete(self.cursor.y, self.cursor.x, k, blank);
    }

    /// Overwrite cells from the cursor on with blanks carrying the template.
    pub fn erase_chars(&mut self, count: usize)
        requires
            old(self).wf(),
        ensures
            final(self).wf(),
            final(self)@ =~~= spec_erase_chars(old(self)@, count),
    {
        let stop = if count > self.size.x - self.cursor.x {
            self.size.x
        } else {
            self.cursor.x + count
        };
        let blank = Cell { ch: None, attributes: self.cell_template };
        self.grid.row_fill(self.cursor.y, self.cursor.x, stop, blank);
    }

    /// Insert blank lines at the cursor, pushing rows down within the
    /// scrolling region; ignored when the cursor is outside the region.
    pub fn insert_blank_lines(&mut self, count: usize)
        requires
            old(self).wf(),
        ensures
            final(self).wf(),
            final(self)@ =~~= spec_insert_blank_lines(old(self)@, count),
    {
        if count >= 1 && self.scroll_top <= self.cursor.y && self.cursor.y <= self.scroll_bottom {
            let blank = Cell { ch: None, attributes: self.cell_template };
            self.grid.scroll_region_down(self.cursor.y, self.scroll_bottom, count, blank);
        }
    }

    /// Delete lines at the cursor, pulling rows up within the scrolling
    /// region; ignored when the cursor is outside the region.
    pub fn delete_lines(&mut self, count: usize)
        requires
            old(self).wf(),
        ensures
            final(self).wf(),
            final(self)@ =~~= spec_delete_lines(old(self)@, count),
    {
        if count >= 1 && self.scroll_top <= self.cursor.y && self.cursor.y <= self.scroll_bottom {
            let blank = Cell { ch: None, attributes: self.cell_template };
            self.grid.scroll_region_up(self.cursor.y, self.scroll_bottom, count, blank);
        }
    }

    /// Slide the scrolling region up.
    pub fn scroll_up(&mut self, count: usize)
        requires
            old(self).wf(),
        ensures
            final(self).wf(),
            final(self)@ =~~= spec_scroll_up(old(self)@, count),
    {
        if count >= 1 {
            let blank = Cell { ch: None, attributes: self.cell_template };
            self.grid.scroll_region_up(self.scroll_top, self.scroll_bottom, count, blank);
        }
    }

    /// Slide the scrolling region down.
    pub fn scroll_down(&mut self, count: usize)
        requires
            old(self).wf(),
        ensures
            final(self).wf(),
            final(self)@ =~~= spec_scroll_down(old(self)@, count),
    {
        if count >= 1 {
            let blank = Cell { ch: None, attributes: self.cell_template };
            self.grid.scroll_region_down(self.scroll_top, self.scroll_bottom, count, blank);
        }
    }

    fn clear_below(&mut self)
        requires
            old(self).wf(),
        ensures
            final(self).wf(),
            final(self)@ =~~= spec_clear_screen(old(self)@, ClearScreenMode::Below),
    {
        let blank = Cell { ch: None, attributes: self.cell_template };
        let w = self.size.x;
        self.grid.row_fill(self.cursor.y, self.cursor.x, w, blank);
        self.grid.region_fill(self.cursor.y + 1, self.size.y, blank);
        proof {
            assert(self@.rows =~~= spec_clear_screen(old(self)@, ClearScreenMode::Below).rows);
            assert(self@ =~~= spec_clear_screen(old(self)@, ClearScreenMode::Below));
        }
    }

    fn clear_above(&mut self)
        requires
            old(self).wf(),
        ensures
            final(self).wf(),
            final(self)@ =~~= spec_clear_screen(old(self)@, ClearScreenMode::Above),
    {
        let blank = Cell { ch: None, attributes: self.cell_template };
        self.grid.row_fill(self.cursor.y, 0, self.cursor.x + 1, blank);
        self.grid.region_fill(0, self.cursor.y, blank);
        proof {
            assert(self@.rows =~~= spec_clear_screen(old(self)@, ClearScreenMode::Above).rows);
            assert(self@ =~~= spec_clear_screen(old(self)@, ClearScreenMode::Above));
        }
    }

    fn clear_all(&mut self, mode: ClearScreenMode)
        requires
            old(self).wf(),
            mode == ClearScreenMode::All || mode == ClearScreenMode::Saved,
        ensures
            final(self).wf(),
            final(self)@ =~~= spec_clear_screen(old(self)@, mode),
    {
        let blank = Cell { ch: None, attributes: self.cell_template };
        let h = self.size.y;
        self.grid.region_fill(0, h, blank);
        proof {
            assert(self@.rows =~~= spec_clear_screen(old(self)@, mode).rows);
            assert(self@ =~~= spec_clear_screen(old(self)@, mode));
        }
    }

    /// Clear part of the screen relative to the cursor.
    pub fn clear_screen(&mut self, mode: ClearScreenMode)
        requires
            old(self).wf(),
        ensures
            final(self).wf(),
            final(self)@ =~~= spec_clear_screen(old(self)@, mode),
    {
        match mode {
            ClearScreenMode::Below => self.clear_below(),
            ClearScreenMode::Above => self.clear_above(),
            _ => self.clear_all(mode),
        }
    }

    /// Clear part of the cursor's line.
    pub fn clear_line(&mut self, mode: ClearLineMode)
        requires
            old(self).wf(),
        ensures
            final(self).wf(),
            final(self)@ =~~= spec_clear_line(old(self)@, mode),
    {
        let blank = Cell { ch: None, attributes: self.cell_template };
        match mode {
            ClearLineMode::Right => {
                let w = self.size.x;
                self.grid.row_fill(self.cursor.y, self.cursor.x, w, blank);
            },
            ClearLineMode::Left => {
                self.grid.row_fill(self.cursor.y, 0, self.cursor.x + 1, blank);
            },
            ClearLineMode::All => {
                let w = self.size.x;
                self.grid.row_fill(self.cursor.y, 0, w, blank);
            },
        }
    }

    /// Fill the whole screen with `E` cells.
    pub fn do_alignment_test(&mut self)
        requires
            old(self).wf(),
        ensures
            final(self).wf(),
            final(self)@ =~~= spec_alignment_test(old(self)@),
    {
        let cell = Cell { ch: Some('E'), attributes: self.cell_template };
        let h = self.size.y;
        self.grid.region_fill(0, h, cell);
    }

    /// Move up one row; at the top of the scrolling region, scroll down.
    pub fn reverse_index(&mut self)
        requires
            old(self).wf(),
        ensures
            final(self).wf(),
            final(self)@ =~~= spec_reverse_index(old(self)@),
    {
        if self.cursor.y == self.scroll_top {
            let blank = Cell { ch: None, attributes: self.cell_template };
            self.grid.scroll_region_down(self.scroll_top, self.scroll_bottom, 1, blank);
        } else {
            self.move_up(1);
        }
    }

    /// Reset cursor, template, charsets, tabstops, modes, scrolling region,
    /// and the grid to their startup state.
    pub fn reset_state(&mut self)
        requires
            old(self).wf(),
        ensures
            final(self).wf(),
            final(self)@ =~~= spec_reset_state(old(self)@),
    {
        let h = self.size.y;
        self.grid.region_fill(0, h, Cell::default());
        self.grid.clear_tabstops();
        self.cursor = Point { x: 0, y: 0 };
        self.cell_template = Attributes::default();
        self.charsets = CharsetList::default();
        self.active_charset = CharsetIndex::G0;
        self.scroll_top = 0;
        self.scroll_bottom = self.size.y - 1;
        self.saved_cursor = Point { x: 0, y: 0 };
        self.modes = ModeSet::default_modes();
        self.cursor_style = CursorStyle::Default;
        self.keypad_application_mode = false;
    }
}

/// Apply one SGR attribute operation to a template value.
fn apply_sgr(t: Attributes, attr: Attribute) -> (r: Attributes)
    ensures
        r == spec_apply_sgr(t, attr),
{
    match attr {
        Attribute::Reset => Attributes::default(),
        Attribute::Bold => Attributes { flags: Flags { bold: true, ..t.flags }, ..t },
        Attribute::Dim => Attributes { flags: Flags { dim: true, ..t.flags }, ..t },
        Attribute::Italic => Attributes { flags: Flags { italic: true, ..t.flags }, ..t },
        Attribute::Underline => Attributes { flags: Flags { underline: true, ..t.flags }, ..t },
        Attribute::BlinkSlow => Attributes {
            flags: Flags { blink_slow: true, blink_fast: false, ..t.flags },
            ..t
        },
        Attribute::BlinkFast => Attributes {
            flags: Flags { blink_fast: true, blink_slow: false, ..t.flags },
            ..t
        },
        Attribute::Reverse => Attributes { flags: Flags { inverse: true, ..t.flags }, ..t },
        Attribute::Hidden => Attributes { flags: Flags { hidden: true, ..t.flags }, ..t },
        Attribute::Strike => Attributes { flags: Flags { strikeout: true, ..t.flags }, ..t },
        Attribute::CancelBold => Attributes { flags: Flags { bold: false, ..t.flags }, ..t },
        Attribute::CancelBoldDim => Attributes {
            flags: Flags { bold: false, dim: false, ..t.flags },
            ..t
        },
        Attribute::CancelItalic => Attributes { flags: Flags { italic: false, ..t.flags }, ..t },
        Attribute::CancelUnderline => Attributes {
            flags: Flags { underline: false, ..t.flags },
            ..t
        },
        Attribute::CancelBlink => Attributes {
            flags: Flags { blink_slow: false, blink_fast: false, ..t.flags },
            ..t
        },
        Attribute::CancelReverse => Attributes { flags: Flags { inverse: false, ..t.flags }, ..t },
        Attribute::CancelHidden => Attributes { flags: Flags { hidden: false, ..t.flags }, ..t },
        Attribute::CancelStrike => Attributes { flags: Flags { strikeout: false, ..t.flags }, ..t },
        Attribute::Foreground(c) => Attributes { fg: c, ..t },
        Attribute::Background(c) => Attributes { bg: c, ..t },
    }
}


// ---------------------------------------------------------------------------
// Laws.
// ---------------------------------------------------------------------------

/// The SGR `Reset` operation restores the cell template to the default
/// exactly, whatever state the template was in.
#[verifier::rlimit(50)]
pub proof fn lemma_sgr_reset_restores_default(m: ScreenModel)
    ensures
        spec_sgr_attribute(m, Attribute::Reset).template == Attributes::spec_default(),
        spec_sgr_attribute(m, Attribute::Reset) =~~= (ScreenModel {
            template: Attributes::spec_default(),
            ..m
        }),
{
}

/// `n` save/restore pairs applied after one another.
pub open spec fn spec_save_restore_pairs(m: ScreenModel, n: nat) -> ScreenModel
    decreases n,
{
    if n == 0 {
        m
    } else {
        spec_restore_cursor(spec_save_cursor(spec_save_restore_pairs(m, (n - 1) as nat)))
    }
}

/// Any number of `save_cursor_position` / `restore_cursor_position` pairs
/// leaves the cursor where it was, and touches nothing but the save slot.
#[verifier::rlimit(50)]
pub proof fn lemma_save_restore_cursor_noop(m: ScreenModel, n: nat)
    ensures
        spec_save_restore_pairs(m, n).cursor == m.cursor,
        n > 0 ==> spec_save_restore_pairs(m, n) =~~= (ScreenModel { saved_cursor: m.cursor, ..m }),
    decreases n,
{
    if n > 0 {
        lemma_save_restore_cursor_noop(m, (n - 1) as nat);
    }
}

} // verus!
