//! Cursor styles, clipboard selectors, terminal modes, and clear modes:
//! the small enumerations carried by escape sequences.

use vstd::prelude::*;

verus! {

#[derive(Debug, Clone, Copy, PartialEq, Eq, Structural)]
pub enum CursorStyle {
    Default,
    BlinkingBlock,
    StaticBlock,
    BlinkingUnderline,
    StaticUnderline,
    BlinkingBar,
    StaticBar,
}

impl Default for CursorStyle {
    fn default() -> (r: Self)
        ensures
            r == CursorStyle::Default,
    {
        CursorStyle::Default
    }
}

pub open spec fn spec_cursor_style_from(number: int) -> Option<CursorStyle> {
    if number == 0 {
        Some(CursorStyle::Default)
    } else if number == 1 {
        Some(CursorStyle::BlinkingBlock)
    } else if number == 2 {
        Some(CursorStyle::StaticBlock)
    } else if number == 3 {
        Some(CursorStyle::BlinkingUnderline)
    } else if number == 4 {
        Some(CursorStyle::StaticUnderline)
    } else if number == 5 {
        Some(CursorStyle::BlinkingBar)
    } else if number == 6 {
        Some(CursorStyle::StaticBar)
    } else {
        None
    }
}

pub open spec fn spec_cursor_style_code(style: CursorStyle) -> int {
    match style {
        CursorStyle::Default => 0,
        CursorStyle::BlinkingBlock => 1,
        CursorStyle::StaticBlock => 2,
        CursorStyle::BlinkingUnderline => 3,
        CursorStyle::StaticUnderline => 4,
        CursorStyle::BlinkingBar => 5,
        CursorStyle::StaticBar => 6,
    }
}

impl CursorStyle {
    pub fn from_primitive(number: i64) -> (r: Option<Self>)
        ensures
            r == spec_cursor_style_from(number as int),
    {
        match number {
            0 => Some(Self::Default),
            1 => Some(Self::BlinkingBlock),
            2 => Some(Self::StaticBlock),
            3 => Some(Self::BlinkingUnderline),
            4 => Some(Self::StaticUnderline),
            5 => Some(Self::BlinkingBar),
            6 => Some(Self::StaticBar),
            _ => None,
        }
    }

    pub fn to_primitive(&self) -> (r: i64)
        ensures
            r == spec_cursor_style_code(*self),
            spec_cursor_style_from(r as int) == Some(*self),
    {
        match self {
            Self::Default => 0,
            Self::BlinkingBlock => 1,
            Self::StaticBlock => 2,
            Self::BlinkingUnderline => 3,
            Self::StaticUnderline => 4,
            Self::BlinkingBar => 5,
            Self::StaticBar => 6,
        }
    }

    /// The blinking variant of the style; blinking styles stay as they are.
    pub fn to_blinking(&self) -> (r: Self)
        ensures
            r == spec_to_blinking(*self),
    {
        match self {
            Self::StaticBlock => Self::BlinkingBlock,
            Self::StaticUnderline => Self::BlinkingUnderline,
            Self::StaticBar => Self::BlinkingBar,
            style => *style,
        }
    }

    /// The static variant of the style; static styles stay as they are.
    pub fn to_static(&self) -> (r: Self)
        ensures
            r == spec_to_static(*self),
    {
        match self {
            Self::BlinkingBlock => Self::StaticBlock,
            Self::BlinkingUnderline => Self::StaticUnderline,
            Self::BlinkingBar => Self::StaticBar,
            style => *style,
        }
    }
}

pub open spec fn spec_to_blinking(style: CursorStyle) -> CursorStyle {
    match style {
        CursorStyle::StaticBlock => CursorStyle::BlinkingBlock,
        CursorStyle::StaticUnderline => CursorStyle::BlinkingUnderline,
        CursorStyle::StaticBar => CursorStyle::BlinkingBar,
        s => s,
    }
}

pub open spec fn spec_to_static(style: CursorStyle) -> CursorStyle {
    match style {
        CursorStyle::BlinkingBlock => CursorStyle::StaticBlock,
        CursorStyle::BlinkingUnderline => CursorStyle::StaticUnderline,
        CursorStyle::BlinkingBar => CursorStyle::StaticBar,
        s => s,
    }
}

#[derive(Debug, Clone, Copy, PartialEq, Eq, Structural)]
pub enum ClipboardType {
    Clipboard,
    Primary,
    Selection,
    Cut0,
    Cut1,
    Cut2,
    Cut3,
    Cut4,
    Cut5,
    Cut6,
    Cut7,
}

impl Default for ClipboardType {
    fn default() -> (r: Self)
        ensures
            r == ClipboardType::Clipboard,
    {
        ClipboardType::Clipboard
    }
}

pub open spec fn spec_clipboard_from(byte: u8) -> Option<ClipboardType> {
    if byte == 'c' as u8 {
        Some(ClipboardType::Clipboard)
    } else if byte == 'p' as u8 {
        Some(ClipboardType::Primary)
    } else if byte == 's' as u8 {
        Some(ClipboardType::Selection)
    } else if byte == '0' as u8 {
        Some(ClipboardType::Cut0)
    } else if byte == '1' as u8 {
        Some(ClipboardType::Cut1)
    } else if byte == '2' as u8 {
        Some(ClipboardType::Cut2)
    } else if byte == '3' as u8 {
        Some(ClipboardType::Cut3)
    } else if byte == '4' as u8 {
        Some(ClipboardType::Cut4)
    } else if byte == '5' as u8 {
        Some(ClipboardType::Cut5)
    } else if byte == '6' as u8 {
        Some(ClipboardType::Cut6)
    } else if byte == '7' as u8 {
        Some(ClipboardType::Cut7)
    } else {
        None
    }
}

pub open spec fn spec_clipboard_code(c: ClipboardType) -> u8 {
    match c {
        ClipboardType::Clipboard => 'c' as u8,
        ClipboardType::Primary => 'p' as u8,
        ClipboardType::Selection => 's' as u8,
        ClipboardType::Cut0 => '0' as u8,
        ClipboardType::Cut1 => '1' as u8,
        ClipboardType::Cut2 => '2' as u8,
        ClipboardType::Cut3 => '3' as u8,
        ClipboardType::Cut4 => '4' as u8,
        ClipboardType::Cut5 => '5' as u8,
        ClipboardType::Cut6 => '6' as u8,
        ClipboardType::Cut7 => '7' as u8,
    }
}

/// Index of a clipboard slot, 0 to 10.
pub open spec fn spec_clipboard_slot(c: ClipboardType) -> int {
    match c {
        ClipboardType::Clipboard => 0,
        ClipboardType::Primary => 1,
        ClipboardType::Selection => 2,
        ClipboardType::Cut0 => 3,
        ClipboardType::Cut1 => 4,
        ClipboardType::Cut2 => 5,
        ClipboardType::Cut3 => 6,
        ClipboardType::Cut4 => 7,
        ClipboardType::Cut5 => 8,
        ClipboardType::Cut6 => 9,
        ClipboardType::Cut7 => 10,
    }
}

impl ClipboardType {
    pub fn from_primitive(byte: u8) -> (r: Option<Self>)
        ensures
            r == spec_clipboard_from(byte),
    {
        if byte == 'c' as u8 {
            Some(ClipboardType::Clipboard)
        } else if byte == 'p' as u8 {
            Some(ClipboardType::Primary)
        } else if byte == 's' as u8 {
            Some(ClipboardType::Selection)
        } else if byte == '0' as u8 {
            Some(ClipboardType::Cut0)
        } else if byte == '1' as u8 {
            Some(ClipboardType::Cut1)
        } else if byte == '2' as u8 {
            Some(ClipboardType::Cut2)
        } else if byte == '3' as u8 {
            Some(ClipboardType::Cut3)
        } else if byte == '4' as u8 {
            Some(ClipboardType::Cut4)
        } else if byte == '5' as u8 {
            Some(ClipboardType::Cut5)
        } else if byte == '6' as u8 {
            Some(ClipboardType::Cut6)
        } else if byte == '7' as u8 {
            Some(ClipboardType::Cut7)
        } else {
            None
        }
    }

    pub fn to_primitive(&self) -> (r: u8)
        ensures
            r == spec_clipboard_code(*self),
            spec_clipboard_from(r) == Some(*self),
    {
        match self {
            ClipboardType::Clipboard => 'c' as u8,
            ClipboardType::Primary => 'p' as u8,
            ClipboardType::Selection => 's' as u8,
            ClipboardType::Cut0 => '0' as u8,
            ClipboardType::Cut1 => '1' as u8,
            ClipboardType::Cut2 => '2' as u8,
            ClipboardType::Cut3 => '3' as u8,
            ClipboardType::Cut4 => '4' as u8,
            ClipboardType::Cut5 => '5' as u8,
            ClipboardType::Cut6 => '6' as u8,
            ClipboardType::Cut7 => '7' as u8,
        }
    }

    /// Index of this clipboard's slot in the screen's clipboard store.
    pub fn slot(&self) -> (r: usize)
        ensures
            r == spec_clipboard_slot(*self),
    {
        match self {
            ClipboardType::Clipboard => 0,
            ClipboardType::Primary => 1,
            ClipboardType::Selection => 2,
            ClipboardType::Cut0 => 3,
            ClipboardType::Cut1 => 4,
            ClipboardType::Cut2 => 5,
            ClipboardType::Cut3 => 6,
            ClipboardType::Cut4 => 7,
            ClipboardType::Cut5 => 8,
            ClipboardType::Cut6 => 9,
            ClipboardType::Cut7 => 10,
        }
    }
}

#[derive(Debug, Clone, Copy, PartialEq, Eq, Structural)]
pub enum TerminalMode {
    CursorKeys,
    ColumnMode,
    Insert,
    Origin,
    LineWrap,
    BlinkingCursor,
    LineFeedNewLine,
    ShowCursor,
    ReportMouseClicks,
    ReportCellMouseMotion,
    ReportAllMouseMotion,
    ReportFocusInOut,
    Utf8Mouse,
    SgrMouse,
    AlternateScroll,
    SwapScreenAndSetRestoreCursor,
    BracketedPaste,
}

/// Which mode a `h`/`l` selector names: `private` is true when the sequence
/// carried the `?` prefix.
pub open spec fn spec_terminal_mode_from(intermediate: Option<u8>, number: int) -> Option<
    TerminalMode,
> {
    if intermediate is Some && intermediate->0 != '?' as u8 {
        None
    } else {
        let private = intermediate == Some('?' as u8);
        if private {
            if number == 1 {
                Some(TerminalMode::CursorKeys)
            } else if number == 3 {
                Some(TerminalMode::ColumnMode)
            } else if number == 6 {
                Some(TerminalMode::Origin)
            } else if number == 7 {
                Some(TerminalMode::LineWrap)
            } else if number == 12 {
                Some(TerminalMode::BlinkingCursor)
            } else if number == 25 {
                Some(TerminalMode::ShowCursor)
            } else if number == 1000 {
                Some(TerminalMode::ReportMouseClicks)
            } else if number == 1002 {
                Some(TerminalMode::ReportCellMouseMotion)
            } else if number == 1003 {
                Some(TerminalMode::ReportAllMouseMotion)
            } else if number == 1004 {
                Some(TerminalMode::ReportFocusInOut)
            } else if number == 1005 {
                Some(TerminalMode::Utf8Mouse)
            } else if number == 1006 {
                Some(TerminalMode::SgrMouse)
            } else if number == 1007 {
                Some(TerminalMode::AlternateScroll)
            } else if number == 1049 {
                Some(TerminalMode::SwapScreenAndSetRestoreCursor)
            } else if number == 2004 {
                Some(TerminalMode::BracketedPaste)
            } else {
                None
            }
        } else {
            if number == 4 {
                Some(TerminalMode::Insert)
            } else if number == 20 {
                Some(TerminalMode::LineFeedNewLine)
            } else {
                None
            }
        }
    }
}

impl TerminalMode {
    pub fn from_primitive(intermediate: Option<&u8>, number: i64) -> (r: Option<Self>)
        ensures
            r == spec_terminal_mode_from(
                match intermediate {
                    Some(b) => Some(*b),
                    None => None,
                },
                number as int,
            ),
    {
        let private = match intermediate {
            Some(b) => {
                if *b == '?' as u8 {
                    true
                } else {
                    return None;
                }
            },
            None => false,
        };
        if private {
            match number {
                1 => Some(Self::CursorKeys),
                3 => Some(Self::ColumnMode),
                6 => Some(Self::Origin),
                7 => Some(Self::LineWrap),
                12 => Some(Self::BlinkingCursor),
                25 => Some(Self::ShowCursor),
                1000 => Some(Self::ReportMouseClicks),
                1002 => Some(Self::ReportCellMouseMotion),
                1003 => Some(Self::ReportAllMouseMotion),
                1004 => Some(Self::ReportFocusInOut),
                1005 => Some(Self::Utf8Mouse),
                1006 => Some(Self::SgrMouse),
                1007 => Some(Self::AlternateScroll),
                1049 => Some(Self::SwapScreenAndSetRestoreCursor),
                2004 => Some(Self::BracketedPaste),
                _ => None,
            }
        } else {
            match number {
                4 => Some(Self::Insert),
                20 => Some(Self::LineFeedNewLine),
                _ => None,
            }
        }
    }
}

/// The set of modes that are switched on.
#[derive(Debug, Clone, Copy, PartialEq, Eq, Structural)]
pub struct ModeSet {
    pub cursor_keys: bool,
    pub column_mode: bool,
    pub insert: bool,
    pub origin: bool,
    pub line_wrap: bool,
    pub blinking_cursor: bool,
    pub line_feed_new_line: bool,
    pub show_cursor: bool,
    pub report_mouse_clicks: bool,
    pub report_cell_mouse_motion: bool,
    pub report_all_mouse_motion: bool,
    pub report_focus_in_out: bool,
    pub utf8_mouse: bool,
    pub sgr_mouse: bool,
    pub alternate_scroll: bool,
    pub swap_screen_and_set_restore_cursor: bool,
    pub bracketed_paste: bool,
}

impl ModeSet {
    /// The modes a terminal starts with: line wrap on, the cursor shown.
    pub open spec fn spec_default() -> ModeSet {
        ModeSet {
            cursor_keys: false,
            column_mode: false,
            insert: false,
            origin: false,
            line_wrap: true,
            blinking_cursor: false,
            line_feed_new_line: false,
            show_cursor: true,
            report_mouse_clicks: false,
            report_cell_mouse_motion: false,
            report_all_mouse_motion: false,
            report_focus_in_out: false,
            utf8_mouse: false,
            sgr_mouse: false,
            alternate_scroll: false,
            swap_screen_and_set_restore_cursor: false,
            bracketed_paste: false,
        }
    }

    pub open spec fn spec_get(self, mode: TerminalMode) -> bool {
        match mode {
            TerminalMode::CursorKeys => self.cursor_keys,
            TerminalMode::ColumnMode => self.column_mode,
            TerminalMode::Insert => self.insert,
            TerminalMode::Origin => self.origin,
            TerminalMode::LineWrap => self.line_wrap,
            TerminalMode::BlinkingCursor => self.blinking_cursor,
            TerminalMode::LineFeedNewLine => self.line_feed_new_line,
            TerminalMode::ShowCursor => self.show_cursor,
            TerminalMode::ReportMouseClicks => self.report_mouse_clicks,
            TerminalMode::ReportCellMouseMotion => self.report_cell_mouse_motion,
            TerminalMode::ReportAllMouseMotion => self.report_all_mouse_motion,
            TerminalMode::ReportFocusInOut => self.report_focus_in_out,
            TerminalMode::Utf8Mouse => self.utf8_mouse,
            TerminalMode::SgrMouse => self.sgr_mouse,
            TerminalMode::AlternateScroll => self.alternate_scroll,
            TerminalMode::SwapScreenAndSetRestoreCursor => self.swap_screen_and_set_restore_cursor,
            TerminalMode::BracketedPaste => self.bracketed_paste,
        }
    }

    pub open spec fn spec_set(self, mode: TerminalMode, value: bool) -> ModeSet {
        match mode {
            TerminalMode::CursorKeys => ModeSet { cursor_keys: value, ..self },
            TerminalMode::ColumnMode => ModeSet { column_mode: value, ..self },
            TerminalMode::Insert => ModeSet { insert: value, ..self },
            TerminalMode::Origin => ModeSet { origin: value, ..self },
            TerminalMode::LineWrap => ModeSet { line_wrap: value, ..self },
            TerminalMode::BlinkingCursor => ModeSet { blinking_cursor: value, ..self },
            TerminalMode::LineFeedNewLine => ModeSet { line_feed_new_line: value, ..self },
            TerminalMode::ShowCursor => ModeSet { show_cursor: value, ..self },
            TerminalMode::ReportMouseClicks => ModeSet { report_mouse_clicks: value, ..self },
            TerminalMode::ReportCellMouseMotion => ModeSet {
                report_cell_mouse_motion: value,
                ..self
            },
            TerminalMode::ReportAllMouseMotion => ModeSet {
                report_all_mouse_motion: value,
                ..self
            },
            TerminalMode::ReportFocusInOut => ModeSet { report_focus_in_out: value, ..self },
            TerminalMode::Utf8Mouse => ModeSet { utf8_mouse: value, ..self },
            TerminalMode::SgrMouse => ModeSet { sgr_mouse: value, ..self },
            TerminalMode::AlternateScroll => ModeSet { alternate_scroll: value, ..self },
            TerminalMode::SwapScreenAndSetRestoreCursor => ModeSet {
                swap_screen_and_set_restore_cursor: value,
                ..self
            },
            TerminalMode::BracketedPaste => ModeSet { bracketed_paste: value, ..self },
        }
    }

    pub fn default_modes() -> (r: ModeSet)
        ensures
            r == ModeSet::spec_default(),
    {
        ModeSet {
            cursor_keys: false,
            column_mode: false,
            insert: false,
            origin: false,
            line_wrap: true,
            blinking_cursor: false,
            line_feed_new_line: false,
            show_cursor: true,
            report_mouse_clicks: false,
            report_cell_mouse_motion: false,
            report_all_mouse_motion: false,
            report_focus_in_out: false,
            utf8_mouse: false,
            sgr_mouse: false,
            alternate_scroll: false,
            swap_screen_and_set_restore_cursor: false,
            bracketed_paste: false,
        }
    }

    pub fn get(&self, mode: TerminalMode) -> (r: bool)
        ensures
            r == self.spec_get(mode),
    {
        match mode {
            TerminalMode::CursorKeys => self.cursor_keys,
            TerminalMode::ColumnMode => self.column_mode,
            TerminalMode::Insert => self.insert,
            TerminalMode::Origin => self.origin,
            TerminalMode::LineWrap => self.line_wrap,
            TerminalMode::BlinkingCursor => self.blinking_cursor,
            TerminalMode::LineFeedNewLine => self.line_feed_new_line,
            TerminalMode::ShowCursor => self.show_cursor,
            TerminalMode::ReportMouseClicks => self.report_mouse_clicks,
            TerminalMode::ReportCellMouseMotion => self.report_cell_mouse_motion,
            TerminalMode::ReportAllMouseMotion => self.report_all_mouse_motion,
            TerminalMode::ReportFocusInOut => self.report_focus_in_out,
            TerminalMode::Utf8Mouse => self.utf8_mouse,
            TerminalMode::SgrMouse => self.sgr_mouse,
            TerminalMode::AlternateScroll => self.alternate_scroll,
            TerminalMode::SwapScreenAndSetRestoreCursor => self.swap_screen_and_set_restore_cursor,
            TerminalMode::BracketedPaste => self.bracketed_paste,
        }
    }

    pub fn set(&mut self, mode: TerminalMode, value: bool)
        ensures
            *final(self) == old(self).spec_set(mode, value),
    {
        let m = *self;
        *self = match mode {
            TerminalMode::CursorKeys => ModeSet { cursor_keys: value, ..m },
            TerminalMode::ColumnMode => ModeSet { column_mode: value, ..m },
            TerminalMode::Insert => ModeSet { insert: value, ..m },
            TerminalMode::Origin => ModeSet { origin: value, ..m },
            TerminalMode::LineWrap => ModeSet { line_wrap: value, ..m },
            TerminalMode::BlinkingCursor => ModeSet { blinking_cursor: value, ..m },
            TerminalMode::LineFeedNewLine => ModeSet { line_feed_new_line: value, ..m },
            TerminalMode::ShowCursor => ModeSet { show_cursor: value, ..m },
            TerminalMode::ReportMouseClicks => ModeSet { report_mouse_clicks: value, ..m },
            TerminalMode::ReportCellMouseMotion => ModeSet {
                report_cell_mouse_motion: value,
                ..m
            },
            TerminalMode::ReportAllMouseMotion => ModeSet {
                report_all_mouse_motion: value,
                ..m
            },
            TerminalMode::ReportFocusInOut => ModeSet { report_focus_in_out: value, ..m },
            TerminalMode::Utf8Mouse => ModeSet { utf8_mouse: value, ..m },
            TerminalMode::SgrMouse => ModeSet { sgr_mouse: value, ..m },
            TerminalMode::AlternateScroll => ModeSet { alternate_scroll: value, ..m },
            TerminalMode::SwapScreenAndSetRestoreCursor => ModeSet {
                swap_screen_and_set_restore_cursor: value,
                ..m
            },
            TerminalMode::BracketedPaste => ModeSet { bracketed_paste: value, ..m },
        };
    }
}

#[derive(Debug, Clone, Copy, PartialEq, Eq, Structural)]
pub enum ClearScreenMode {
    Below,
    Above,
    All,
    Saved,
}

#[derive(Debug, Clone, Copy, PartialEq, Eq, Structural)]
pub enum ClearLineMode {
    Right,
    Left,
    All,
}

} // verus!
