//! Rendering attributes toward the outer terminal: one SGR sequence that
//! materializes a target `Attributes` value.

use vstd::prelude::*;
use crate::cell::{Attributes, Cell};
use crate::color::{Color, SpecialColor};
use crate::point::Point;
use crate::screen::{Screen, ScreenModel};
use crate::text::{dec_of, push_dec};

verus! {

/// `;3n`/`;4n` for the eight base colors, `;38;2;r;g;b` / `;48;2;r;g;b` for
/// truecolor, `;38;5;n` / `;48;5;n` for indexed colors, `;39` / `;49` for the
/// defaults. A special color that cannot stand in this position falls back
/// to black on black, as the closest safe rendition.
pub open spec fn fg_code(c: Color) -> Seq<u8> {
    match c {
        Color::Indexed(n) => if n < 8 {
            seq![0x3bu8, 0x33, (0x30 + n) as u8]
        } else {
            seq![0x3bu8, 0x33, 0x38, 0x3b, 0x35, 0x3b] + dec_of(n as int)
        },
        Color::Rgb(rgb) => seq![0x3bu8, 0x33, 0x38, 0x3b, 0x32, 0x3b] + dec_of(rgb.r as int)
            + seq![0x3bu8] + dec_of(rgb.g as int) + seq![0x3bu8] + dec_of(rgb.b as int),
        Color::Special(SpecialColor::Foreground) => seq![0x3bu8, 0x33, 0x39],
        Color::Special(_) => seq![0x3bu8, 0x33, 0x30],
    }
}

pub open spec fn bg_code(c: Color) -> Seq<u8> {
    match c {
        Color::Indexed(n) => if n < 8 {
            seq![0x3bu8, 0x34, (0x30 + n) as u8]
        } else {
            seq![0x3bu8, 0x34, 0x38, 0x3b, 0x35, 0x3b] + dec_of(n as int)
        },
        Color::Rgb(rgb) => seq![0x3bu8, 0x34, 0x38, 0x3b, 0x32, 0x3b] + dec_of(rgb.r as int)
            + seq![0x3bu8] + dec_of(rgb.g as int) + seq![0x3bu8] + dec_of(rgb.b as int),
        Color::Special(SpecialColor::Background) => seq![0x3bu8, 0x34, 0x39],
        Color::Special(_) => seq![0x3bu8, 0x34, 0x30],
    }
}

/// One flag-enable code `;n`.
pub open spec fn flag_code(n: u8) -> Seq<u8> {
    seq![0x3bu8, (0x30 + n) as u8]
}

/// Whether flag `k` (by its enable code) is set.
pub open spec fn flag_set_spec(f: crate::cell::Flags, k: int) -> bool {
    if k == 1 {
        f.bold
    } else if k == 2 {
        f.dim
    } else if k == 3 {
        f.italic
    } else if k == 4 {
        f.underline
    } else if k == 5 {
        f.blink_slow
    } else if k == 6 {
        f.blink_fast
    } else if k == 7 {
        f.inverse
    } else if k == 8 {
        f.hidden
    } else if k == 9 {
        f.strikeout
    } else {
        false
    }
}

/// The flag-enable codes from code `k` upward, in ascending code order.
pub open spec fn flags_bytes_from(f: crate::cell::Flags, k: int) -> Seq<u8>
    decreases 10 - k,
{
    if k < 1 || k > 9 {
        Seq::empty()
    } else {
        (if flag_set_spec(f, k) {
            flag_code(k as u8)
        } else {
            Seq::empty()
        }) + flags_bytes_from(f, k + 1)
    }
}

/// The flag-enable codes of a flag set, in ascending code order.
pub open spec fn flags_bytes(f: crate::cell::Flags) -> Seq<u8> {
    flags_bytes_from(f, 1)
}

/// The full SGR sequence for an attribute value: reset, the enabled flags in
/// ascending code order, one foreground code, one background code, `m`.
pub open spec fn sgr_bytes(a: Attributes) -> Seq<u8> {
    seq![0x1bu8, 0x5b, 0x30] + flags_bytes(a.flags) + fg_code(a.fg) + bg_code(a.bg) + seq![0x6du8]
}

/// Accumulates the bytes to repaint with; the embedder drains `out` to the
/// outer terminal.
pub struct Renderer {
    pub out: Vec<u8>,
}

impl Renderer {
    pub fn new() -> (r: Renderer)
        ensures
            r.out@.len() == 0,
    {
        Renderer { out: Vec::new() }
    }

    /// Append the SGR sequence that materializes `attributes`.
    pub fn render_attributes(&mut self, attributes: &Attributes)
        ensures
            final(self).out@ == old(self).out@ + sgr_bytes(*attributes),
    {
        let a = *attributes;
        self.out.push(0x1b);
        self.out.push(0x5b);
        self.out.push(0x30);
        self.push_flag_codes(a.flags);
        self.push_color_code(a.fg, true);
        self.push_color_code(a.bg, false);
        self.out.push(0x6d);
        proof {
            assert(self.out@ =~= old(self).out@ + sgr_bytes(a));
        }
    }

    /// Append the enable codes of the set flags, in ascending code order.
    fn push_flag_codes(&mut self, f: crate::cell::Flags)
        ensures
            final(self).out@ == old(self).out@ + flags_bytes(f),
    {
        let mut k: u8 = 1;
        proof {
            assert(self.out@ + flags_bytes_from(f, 1) =~= old(self).out@ + flags_bytes_from(
                f,
                1,
            ));
        }
        while k <= 9
            invariant
                1 <= k <= 10,
                self.out@ + flags_bytes_from(f, k as int) =~= old(self).out@ + flags_bytes_from(
                    f,
                    1,
                ),
            decreases 10 - k,
        {
            let set = if k == 1 {
                f.bold
            } else if k == 2 {
                f.dim
            } else if k == 3 {
                f.italic
            } else if k == 4 {
                f.underline
            } else if k == 5 {
                f.blink_slow
            } else if k == 6 {
                f.blink_fast
            } else if k == 7 {
                f.inverse
            } else if k == 8 {
                f.hidden
            } else {
                f.strikeout
            };
            let ghost pre = self.out@;
            if set {
                self.out.push(0x3b);
                self.out.push(0x30 + k);
                proof {
                    assert(self.out@ =~= pre + flag_code(k));
                }
            }
            proof {
                assert(set == flag_set_spec(f, k as int));
                assert(flags_bytes_from(f, k as int) =~= (if flag_set_spec(f, k as int) {
                    flag_code(k)
                } else {
                    Seq::<u8>::empty()
                }) + flags_bytes_from(f, k + 1));
                assert(self.out@ + flags_bytes_from(f, k + 1) =~= old(self).out@
                    + flags_bytes_from(f, 1));
            }
            k += 1;
        }
        proof {
            assert(flags_bytes_from(f, 10) =~= Seq::<u8>::empty());
            assert(self.out@ =~= self.out@ + flags_bytes_from(f, 10));
        }
    }

    fn push_color_code(&mut self, c: Color, foreground: bool)
        ensures
            final(self).out@ == old(self).out@ + if foreground {
                fg_code(c)
            } else {
                bg_code(c)
            },
    {
        let base: u8 = if foreground {
            0x33
        } else {
            0x34
        };
        match c {
            Color::Indexed(n) => {
                if n < 8 {
                    self.out.push(0x3b);
                    self.out.push(base);
                    self.out.push(0x30 + n);
                    proof {
                        assert(self.out@ =~= old(self).out@ + if foreground {
                            fg_code(c)
                        } else {
                            bg_code(c)
                        });
                    }
                } else {
                    self.out.push(0x3b);
                    self.out.push(base);
                    self.out.push(0x38);
                    self.out.push(0x3b);
                    self.out.push(0x35);
                    self.out.push(0x3b);
                    crate::text::push_dec(&mut self.out, n as usize);
                    proof {
                        assert(self.out@ =~= old(self).out@ + if foreground {
                            fg_code(c)
                        } else {
                            bg_code(c)
                        });
                    }
                }
            },
            Color::Rgb(rgb) => {
                self.out.push(0x3b);
                self.out.push(base);
                self.out.push(0x38);
                self.out.push(0x3b);
                self.out.push(0x32);
                self.out.push(0x3b);
                crate::text::push_dec(&mut self.out, rgb.r as usize);
                self.out.push(0x3b);
                crate::text::push_dec(&mut self.out, rgb.g as usize);
                self.out.push(0x3b);
                crate::text::push_dec(&mut self.out, rgb.b as usize);
                proof {
                    assert(self.out@ =~= old(self).out@ + if foreground {
                        fg_code(c)
                    } else {
                        bg_code(c)
                    });
                }
            },
            Color::Special(sc) => {
                let is_default = match sc {
                    SpecialColor::Foreground => foreground,
                    SpecialColor::Background => !foreground,
                    SpecialColor::Cursor => false,
                };
                self.out.push(0x3b);
                self.out.push(base);
                if is_default {
                    self.out.push(0x39);
                } else {
                    self.out.push(0x30);
                }
                proof {
                    assert(self.out@ =~= old(self).out@ + if foreground {
                        fg_code(c)
                    } else {
                        bg_code(c)
                    });
                }
            },
        }
    }
}

// ---------------------------------------------------------------------------
// Whole-screen repaint.
// ---------------------------------------------------------------------------

/// The UTF-8 bytes of one character, by code point range.
pub open spec fn char_utf8(c: char) -> Seq<u8> {
    let v = c as u32;
    if v < 0x80 {
        seq![v as u8]
    } else if v < 0x800 {
        seq![(0xc0 + v / 64) as u8, (0x80 + v % 64) as u8]
    } else if v < 0x10000 {
        seq![(0xe0 + v / 4096) as u8, (0x80 + (v / 64) % 64) as u8, (0x80 + v % 64) as u8]
    } else {
        seq![
            (0xf0 + v / 262144) as u8,
            (0x80 + (v / 4096) % 64) as u8,
            (0x80 + (v / 64) % 64) as u8,
            (0x80 + v % 64) as u8,
        ]
    }
}

/// Append the UTF-8 bytes of `c`.
pub fn push_char_utf8(out: &mut Vec<u8>, c: char)
    ensures
        final(out)@ == old(out)@ + char_utf8(c),
{
    let v = c as u32;
    proof {
        vstd::utf8::char_is_scalar(c);
    }
    if v < 0x80 {
        out.push(v as u8);
        proof {
            assert(out@ =~= old(out)@ + char_utf8(c));
        }
    } else if v < 0x800 {
        out.push((0xc0 + v / 64) as u8);
        out.push((0x80 + v % 64) as u8);
        proof {
            assert(out@ =~= old(out)@ + char_utf8(c));
        }
    } else if v < 0x10000 {
        out.push((0xe0 + v / 4096) as u8);
        out.push((0x80 + (v / 64) % 64) as u8);
        out.push((0x80 + v % 64) as u8);
        proof {
            assert(out@ =~= old(out)@ + char_utf8(c));
        }
    } else {
        out.push((0xf0 + v / 262144) as u8);
        out.push((0x80 + (v / 4096) % 64) as u8);
        out.push((0x80 + (v / 64) % 64) as u8);
        out.push((0x80 + v % 64) as u8);
        proof {
            assert(out@ =~= old(out)@ + char_utf8(c));
        }
    }
}

/// One cell of a repainted row: an SGR sequence when the attributes differ
/// from the cell before, then the cell's character (space when blank).
pub open spec fn cell_bytes(cell: Cell, prev: Option<Attributes>) -> Seq<u8> {
    (if prev != Some(cell.attributes) {
        sgr_bytes(cell.attributes)
    } else {
        Seq::empty()
    }) + char_utf8(
        match cell.ch {
            Some(c) => c,
            None => ' ',
        },
    )
}

/// The cells of a row from column `x` on, threading the previous attributes.
pub open spec fn row_cells_bytes(row: Seq<Cell>, x: int, prev: Option<Attributes>) -> Seq<u8>
    decreases row.len() - x,
{
    if x < 0 || x >= row.len() {
        Seq::empty()
    } else {
        cell_bytes(row[x], prev) + row_cells_bytes(row, x + 1, Some(row[x].attributes))
    }
}

/// The end of a repainted row: reset attributes, right border, line break.
pub open spec fn row_end_bytes() -> Seq<u8> {
    seq![0x1bu8, 0x5b, 0x30, 0x6d, 0x7c, 0x0d, 0x0a]
}

/// The repainted rows from `y` down: left border, the cells (attributes
/// start fresh on every row), the row end.
pub open spec fn frame_rows_bytes(rows: Seq<Seq<Cell>>, y: int) -> Seq<u8>
    decreases rows.len() - y,
{
    if y < 0 || y >= rows.len() {
        Seq::empty()
    } else {
        seq![0x7cu8] + row_cells_bytes(rows[y], 0, None) + row_end_bytes() + frame_rows_bytes(
            rows,
            y + 1,
        )
    }
}

/// A horizontal border: `+`, one `-` per column, `+`, line break.
pub open spec fn border_bytes(w: int) -> Seq<u8> {
    seq![0x2bu8] + Seq::new(w as nat, |i: int| 0x2du8) + seq![0x2bu8, 0x0d, 0x0a]
}

/// The start of a repaint: clear the screen and its scrollback, home the
/// cursor, reset attributes.
pub open spec fn frame_header() -> Seq<u8> {
    seq![
        0x1bu8,
        0x5b,
        0x32,
        0x4a,
        0x1b,
        0x5b,
        0x33,
        0x4a,
        0x1b,
        0x5b,
        0x31,
        0x3b,
        0x31,
        0x48,
        0x1b,
        0x5b,
        0x30,
        0x6d,
    ]
}

/// Place the outer terminal's cursor on the core's cursor cell, inside the
/// box: one row of border above, one column of border left, 1-based.
pub open spec fn cursor_move_bytes(cursor: Point) -> Seq<u8> {
    seq![0x1bu8, 0x5b] + dec_of(cursor.y + 2) + seq![0x3bu8] + dec_of(cursor.x + 2) + seq![0x48u8]
}

/// A full repaint of a screen.
pub open spec fn spec_render_frame(m: ScreenModel) -> Seq<u8> {
    frame_header() + border_bytes(m.size.x as int) + frame_rows_bytes(m.rows, 0) + border_bytes(
        m.size.x as int,
    ) + cursor_move_bytes(m.cursor)
}

/// Append a horizontal border for `w` columns.
fn push_border(out: &mut Vec<u8>, w: usize)
    ensures
        final(out)@ == old(out)@ + border_bytes(w as int),
{
    out.push(0x2b);
    let mut i: usize = 0;
    while i < w
        invariant
            i <= w,
            out@ =~= old(out)@ + seq![0x2bu8] + Seq::new(i as nat, |j: int| 0x2du8),
        decreases w - i,
    {
        out.push(0x2d);
        proof {
            assert(out@ =~= old(out)@ + seq![0x2bu8] + Seq::new((i + 1) as nat, |j: int| 0x2du8));
        }
        i += 1;
    }
    out.push(0x2b);
    out.push(0x0d);
    out.push(0x0a);
    proof {
        assert(out@ =~= old(out)@ + border_bytes(w as int));
    }
}

/// The bytes of a full repaint of `screen`: clear and home, a box around the
/// grid, every cell with its attributes (one SGR sequence per attribute
/// change, fresh on each row), and the outer cursor placed on the core's
/// cursor cell. The embedder writes these bytes to the user's tty.
pub fn render_screen_frame(screen: &Screen) -> (r: Vec<u8>)
    requires
        screen.wf(),
    ensures
        r@ == spec_render_frame(screen@),
{
    let ghost m = screen@;
    let mut out: Vec<u8> = Vec::new();
    out.push(0x1b);
    out.push(0x5b);
    out.push(0x32);
    out.push(0x4a);
    out.push(0x1b);
    out.push(0x5b);
    out.push(0x33);
    out.push(0x4a);
    out.push(0x1b);
    out.push(0x5b);
    out.push(0x31);
    out.push(0x3b);
    out.push(0x31);
    out.push(0x48);
    out.push(0x1b);
    out.push(0x5b);
    out.push(0x30);
    out.push(0x6d);
    proof {
        assert(out@ =~= frame_header());
    }
    let w = screen.size.x;
    let h = screen.size.y;
    push_border(&mut out, w);
    let ghost rows_base = out@;
    let mut y: usize = 0;
    while y < h
        invariant
            screen.wf(),
            m == screen@,
            w == screen.size.x,
            h == screen.size.y,
            y <= h,
            out@ + frame_rows_bytes(m.rows, y as int) =~= rows_base + frame_rows_bytes(m.rows, 0),
        decreases h - y,
    {
        out.push(0x7c);
        let ghost row = m.rows[y as int];
        let ghost row_base = out@;
        let mut prev: Option<Attributes> = None;
        let mut x: usize = 0;
        while x < w
            invariant
                screen.wf(),
                m == screen@,
                w == screen.size.x,
                h == screen.size.y,
                y < h,
                x <= w,
                row == m.rows[y as int],
                row.len() == w,
                prev == (if x == 0 {
                    None::<Attributes>
                } else {
                    Some(row[x - 1].attributes)
                }),
                out@ + row_cells_bytes(row, x as int, prev) =~= row_base + row_cells_bytes(
                    row,
                    0,
                    None,
                ),
            decreases w - x,
        {
            let cell = screen.grid.data[y].cells[x];
            proof {
                assert(cell == row[x as int]);
            }
            let same = match (&prev, &cell) {
                (Some(a), c) => *a == c.attributes,
                (None, _) => false,
            };
            if !same {
                let mut r = Renderer::new();
                r.render_attributes(&cell.attributes);
                let ghost before = out@;
                let mut sgr = r.out;
                out.append(&mut sgr);
                proof {
                    assert(out@ =~= before + sgr_bytes(cell.attributes));
                }
            }
            let ch = match cell.ch {
                Some(c) => c,
                None => ' ',
            };
            push_char_utf8(&mut out, ch);
            proof {
                assert(out@ + row_cells_bytes(row, x + 1, Some(row[x as int].attributes))
                    =~= row_base + row_cells_bytes(row, 0, None));
            }
            prev = Some(cell.attributes);
            x += 1;
        }
        proof {
            assert(row_cells_bytes(row, w as int, prev) =~= Seq::<u8>::empty());
            assert(out@ =~= row_base + row_cells_bytes(row, 0, None));
        }
        out.push(0x1b);
        out.push(0x5b);
        out.push(0x30);
        out.push(0x6d);
        out.push(0x7c);
        out.push(0x0d);
        out.push(0x0a);
        proof {
            assert(out@ =~= row_base + row_cells_bytes(row, 0, None) + row_end_bytes());
            assert(out@ + frame_rows_bytes(m.rows, y + 1) =~= rows_base + frame_rows_bytes(
                m.rows,
                0,
            ));
        }
        y += 1;
    }
    proof {
        assert(frame_rows_bytes(m.rows, h as int) =~= Seq::<u8>::empty());
        assert(out@ =~= rows_base + frame_rows_bytes(m.rows, 0));
    }
    push_border(&mut out, w);
    let ghost tail_base = out@;
    out.push(0x1b);
    out.push(0x5b);
    push_dec(&mut out, screen.cursor.y + 2);
    out.push(0x3b);
    push_dec(&mut out, screen.cursor.x + 2);
    out.push(0x48);
    proof {
        assert(out@ =~= tail_base + cursor_move_bytes(m.cursor));
        assert(out@ =~= spec_render_frame(m));
    }
    out
}

} // verus!
