//! The SGR decoder: numeric `CSI ... m` parameter runs become typed
//! attribute operations, including the 256-color and truecolor extensions.
//!
//! Parameters are consumed in runs: most codes stand alone; `38` and `48`
//! open an extended color run (`38;5;n` or `38;2;r;g;b`). A run with values
//! out of range yields nothing; decoding then resumes at the next run.

use vstd::prelude::*;
use crate::color::{Color, RgbColor, SpecialColor};

verus! {

/// A typed attribute operation.
#[derive(Debug, Clone, Copy, PartialEq, Eq, Structural)]
pub enum Attribute {
    Reset,
    Bold,
    Dim,
    Italic,
    Underline,
    BlinkSlow,
    BlinkFast,
    Reverse,
    Hidden,
    Strike,
    CancelBold,
    CancelBoldDim,
    CancelItalic,
    CancelUnderline,
    CancelBlink,
    CancelReverse,
    CancelHidden,
    CancelStrike,
    Foreground(Color),
    Background(Color),
}

/// How many parameters an extended color run consumes, counted after the
/// opening `38`/`48`.
pub open spec fn color_run_len(rest: Seq<i64>) -> int {
    if rest.len() == 0 {
        0
    } else if rest[0] == 2 {
        if rest.len() >= 4 {
            4
        } else {
            rest.len() as int
        }
    } else if rest[0] == 5 {
        if rest.len() >= 2 {
            2
        } else {
            1
        }
    } else {
        1
    }
}

/// The color an extended color run denotes, if its values are in range.
pub open spec fn color_of_run(rest: Seq<i64>) -> Option<Color> {
    if rest.len() >= 4 && rest[0] == 2 && 0 <= rest[1] < 256 && 0 <= rest[2] < 256 && 0 <= rest[3]
        < 256 {
        Some(
            Color::Rgb(
                RgbColor { r: rest[1] as u8, g: rest[2] as u8, b: rest[3] as u8 },
            ),
        )
    } else if rest.len() >= 2 && rest[0] == 5 && 0 <= rest[1] < 256 {
        Some(Color::Indexed(rest[1] as u8))
    } else {
        None
    }
}

/// The attribute a single simple code denotes.
pub open spec fn attr_of_code(p: int) -> Option<Attribute> {
    if p == 0 {
        Some(Attribute::Reset)
    } else if p == 1 {
        Some(Attribute::Bold)
    } else if p == 2 {
        Some(Attribute::Dim)
    } else if p == 3 {
        Some(Attribute::Italic)
    } else if p == 4 {
        Some(Attribute::Underline)
    } else if p == 5 {
        Some(Attribute::BlinkSlow)
    } else if p == 6 {
        Some(Attribute::BlinkFast)
    } else if p == 7 {
        Some(Attribute::Reverse)
    } else if p == 8 {
        Some(Attribute::Hidden)
    } else if p == 9 {
        Some(Attribute::Strike)
    } else if p == 21 {
        Some(Attribute::CancelBold)
    } else if p == 22 {
        Some(Attribute::CancelBoldDim)
    } else if p == 23 {
        Some(Attribute::CancelItalic)
    } else if p == 24 {
        Some(Attribute::CancelUnderline)
    } else if p == 25 {
        Some(Attribute::CancelBlink)
    } else if p == 27 {
        Some(Attribute::CancelReverse)
    } else if p == 28 {
        Some(Attribute::CancelHidden)
    } else if p == 29 {
        Some(Attribute::CancelStrike)
    } else if 30 <= p <= 37 {
        Some(Attribute::Foreground(Color::Indexed((p - 30) as u8)))
    } else if p == 39 {
        Some(Attribute::Foreground(Color::Special(SpecialColor::Foreground)))
    } else if 40 <= p <= 47 {
        Some(Attribute::Background(Color::Indexed((p - 40) as u8)))
    } else if p == 49 {
        Some(Attribute::Background(Color::Special(SpecialColor::Background)))
    } else if 90 <= p <= 97 {
        Some(Attribute::Foreground(Color::Indexed((p - 90 + 8) as u8)))
    } else if 100 <= p <= 107 {
        Some(Attribute::Background(Color::Indexed((p - 100 + 8) as u8)))
    } else {
        None
    }
}

/// How many parameters the run at the head of `params` consumes.
pub open spec fn run_len(params: Seq<i64>) -> int
    recommends
        params.len() > 0,
{
    if params[0] == 38 || params[0] == 48 {
        1 + color_run_len(params.skip(1))
    } else {
        1
    }
}

/// The attribute the run at the head of `params` denotes, if recognized.
pub open spec fn run_attr(params: Seq<i64>) -> Option<Attribute>
    recommends
        params.len() > 0,
{
    if params[0] == 38 {
        match color_of_run(params.skip(1)) {
            Some(c) => Some(Attribute::Foreground(c)),
            None => None,
        }
    } else if params[0] == 48 {
        match color_of_run(params.skip(1)) {
            Some(c) => Some(Attribute::Background(c)),
            None => None,
        }
    } else {
        attr_of_code(params[0] as int)
    }
}

/// The attributes denoted by a whole parameter list: one per recognized run,
/// in input order; unrecognized runs yield nothing.
pub open spec fn spec_parse_attributes(params: Seq<i64>) -> Seq<Attribute>
    decreases params.len(),
{
    if params.len() == 0 {
        Seq::empty()
    } else {
        let l = run_len(params);
        let tail = if 1 <= l <= params.len() {
            spec_parse_attributes(params.skip(l))
        } else {
            Seq::empty()
        };
        match run_attr(params) {
            Some(a) => seq![a] + tail,
            None => tail,
        }
    }
}

/// Each recognized run contributes exactly one attribute, ahead of whatever
/// the rest of the input contributes; an unrecognized run contributes none.
pub proof fn lemma_sgr_one_attribute_per_run(params: Seq<i64>)
    requires
        params.len() > 0,
    ensures
        run_attr(params) matches Some(a) ==> spec_parse_attributes(params) == seq![a]
            + spec_parse_attributes(params.skip(run_len(params))),
        run_attr(params) is None ==> spec_parse_attributes(params) == spec_parse_attributes(
            params.skip(run_len(params)),
        ),
{
    assert(1 <= run_len(params) <= params.len());
}

/// Decode one extended color run. `pos` points just past the opening
/// `38`/`48`; the result carries the decoded color, if the run is well
/// formed, and the number of parameters consumed.
pub fn parse_color(params: &[i64], pos: usize) -> (r: (Option<Color>, usize))
    requires
        pos <= params@.len(),
    ensures
        r.0 == color_of_run(params@.skip(pos as int)),
        r.1 == color_run_len(params@.skip(pos as int)),
{
    let n = params.len();
    let ghost rest = params@.skip(pos as int);
    if pos >= n {
        return (None, 0);
    }
    let d = params[pos];
    proof {
        assert(rest[0] == params@[pos as int]);
        assert(rest.len() == n - pos);
    }
    if d == 2 {
        if n - pos >= 4 {
            let rv = params[pos + 1];
            let gv = params[pos + 2];
            let bv = params[pos + 3];
            proof {
                assert(rest[1] == params@[pos + 1]);
                assert(rest[2] == params@[pos + 2]);
                assert(rest[3] == params@[pos + 3]);
            }
            if 0 <= rv && rv < 256 && 0 <= gv && gv < 256 && 0 <= bv && bv < 256 {
                (
                    Some(Color::Rgb(RgbColor { r: rv as u8, g: gv as u8, b: bv as u8 })),
                    4,
                )
            } else {
                (None, 4)
            }
        } else {
            (None, n - pos)
        }
    } else if d == 5 {
        if n - pos >= 2 {
            let idx = params[pos + 1];
            proof {
                assert(rest[1] == params@[pos + 1]);
            }
            if 0 <= idx && idx < 256 {
                (Some(Color::Indexed(idx as u8)), 2)
            } else {
                (None, 2)
            }
        } else {
            (None, 1)
        }
    } else {
        (None, 1)
    }
}

fn simple_attr(p: i64) -> (r: Option<Attribute>)
    ensures
        r == attr_of_code(p as int),
{
    match p {
        0 => Some(Attribute::Reset),
        1 => Some(Attribute::Bold),
        2 => Some(Attribute::Dim),
        3 => Some(Attribute::Italic),
        4 => Some(Attribute::Underline),
        5 => Some(Attribute::BlinkSlow),
        6 => Some(Attribute::BlinkFast),
        7 => Some(Attribute::Reverse),
        8 => Some(Attribute::Hidden),
        9 => Some(Attribute::Strike),
        21 => Some(Attribute::CancelBold),
        22 => Some(Attribute::CancelBoldDim),
        23 => Some(Attribute::CancelItalic),
        24 => Some(Attribute::CancelUnderline),
        25 => Some(Attribute::CancelBlink),
        27 => Some(Attribute::CancelReverse),
        28 => Some(Attribute::CancelHidden),
        29 => Some(Attribute::CancelStrike),
        30..=37 => Some(Attribute::Foreground(Color::Indexed((p - 30) as u8))),
        39 => Some(Attribute::Foreground(Color::Special(SpecialColor::Foreground))),
        40..=47 => Some(Attribute::Background(Color::Indexed((p - 40) as u8))),
        49 => Some(Attribute::Background(Color::Special(SpecialColor::Background))),
        90..=97 => Some(Attribute::Foreground(Color::Indexed((p - 90 + 8) as u8))),
        100..=107 => Some(Attribute::Background(Color::Indexed((p - 100 + 8) as u8))),
        _ => None,
    }
}

/// Decode a whole SGR parameter list into attribute operations, one per
/// recognized run, in input order.
pub fn parse_attributes(params: &[i64]) -> (r: Vec<Attribute>)
    ensures
        r@ == spec_parse_attributes(params@),
{
    let n = params.len();
    let mut out: Vec<Attribute> = Vec::new();
    let mut pos: usize = 0;
    proof {
        assert(params@.skip(0) =~= params@);
    }
    while pos < n
        invariant
            pos <= n,
            n == params@.len(),
            spec_parse_attributes(params@) == out@ + spec_parse_attributes(
                params@.skip(pos as int),
            ),
        decreases n - pos,
    {
        let ghost rest = params@.skip(pos as int);
        let p = params[pos];
        proof {
            assert(rest[0] == params@[pos as int]);
        }
        let (attr, consumed): (Option<Attribute>, usize) = if p == 38 {
            let (c, consumed) = parse_color(params, pos + 1);
            proof {
                assert(params@.skip(pos + 1) =~= rest.skip(1));
            }
            match c {
                Some(c) => (Some(Attribute::Foreground(c)), 1 + consumed),
                None => (None, 1 + consumed),
            }
        } else if p == 48 {
            let (c, consumed) = parse_color(params, pos + 1);
            proof {
                assert(params@.skip(pos + 1) =~= rest.skip(1));
            }
            match c {
                Some(c) => (Some(Attribute::Background(c)), 1 + consumed),
                None => (None, 1 + consumed),
            }
        } else {
            (simple_attr(p), 1)
        };
        proof {
            assert(consumed == run_len(rest));
            assert(attr == run_attr(rest));
            assert(1 <= consumed <= rest.len());
        }
        let ghost old_out = out@;
        match attr {
            Some(a) => {
                out.push(a);
                proof {
                    assert(out@ =~= old_out + seq![a]);
                }
            },
            None => {},
        }
        proof {
            assert(rest.skip(run_len(rest)) =~= params@.skip(pos + consumed));
            lemma_sgr_one_attribute_per_run(rest);
            assert(spec_parse_attributes(params@) == out@ + spec_parse_attributes(
                params@.skip(pos + consumed),
            ));
        }
        pos += consumed;
    }
    proof {
        assert(params@.skip(pos as int) =~= Seq::<i64>::empty());
        assert(spec_parse_attributes(params@) =~= out@);
    }
    out
}

} // verus!
