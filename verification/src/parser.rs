//! The escape-sequence state machine.
//!
//! The parser consumes one byte at a time and classifies the stream into
//! printable characters (with multi-byte UTF-8 assembled across calls), C0
//! controls, ESC sequences, CSI sequences with accumulated parameters, OSC
//! strings, and DCS hooks. Its whole behaviour is the spec function
//! `spec_step`; processing a byte slice is the fold `spec_run` of that step,
//! which makes the machine insensitive to how the stream is fragmented
//! (`lemma_parser_byte_split`).

use vstd::prelude::*;
use crate::text::copy_bytes;

verus! {

/// Parameters kept per sequence.
pub const MAX_PARAMS: usize = 16;

/// Intermediate bytes kept per sequence; more set the `ignore` flag.
pub const MAX_INTERMEDIATES: usize = 2;

/// OSC string parameters kept.
pub const MAX_OSC_PARAMS: usize = 16;

/// Total OSC payload bytes kept; more are dropped.
pub const MAX_OSC_BYTES: usize = 1024;

/// The states of the machine.
#[derive(Debug, Clone, Copy, PartialEq, Eq, Structural)]
pub enum State {
    Ground,
    /// Assembling a multi-byte UTF-8 character.
    Utf8,
    Escape,
    EscapeIntermediate,
    CsiEntry,
    CsiParam,
    CsiIntermediate,
    CsiIgnore,
    OscString,
    DcsEntry,
    DcsParam,
    DcsIntermediate,
    DcsPassthrough,
    DcsIgnore,
    SosPmApcString,
}

/// A parser callback, carried as a value.
pub enum Event {
    Print(char),
    Execute(u8),
    EscDispatch { intermediates: Vec<u8>, ignore: bool, byte: u8 },
    CsiDispatch { params: Vec<i64>, intermediates: Vec<u8>, ignore: bool, action: char },
    OscDispatch { params: Vec<Vec<u8>>, bell_terminated: bool },
    Hook { params: Vec<i64>, intermediates: Vec<u8>, ignore: bool, action: char },
    Put(u8),
    Unhook,
}

/// The mathematical image of an event.
#[verifier::ext_equal]
pub enum EventV {
    Print(char),
    Execute(u8),
    EscDispatch { intermediates: Seq<u8>, ignore: bool, byte: u8 },
    CsiDispatch { params: Seq<i64>, intermediates: Seq<u8>, ignore: bool, action: char },
    OscDispatch { params: Seq<Seq<u8>>, bell_terminated: bool },
    Hook { params: Seq<i64>, intermediates: Seq<u8>, ignore: bool, action: char },
    Put(u8),
    Unhook,
}

impl View for Event {
    type V = EventV;

    open spec fn view(&self) -> EventV {
        match self {
            Event::Print(c) => EventV::Print(*c),
            Event::Execute(b) => EventV::Execute(*b),
            Event::EscDispatch { intermediates, ignore, byte } => EventV::EscDispatch {
                intermediates: intermediates@,
                ignore: *ignore,
                byte: *byte,
            },
            Event::CsiDispatch { params, intermediates, ignore, action } => EventV::CsiDispatch {
                params: params@,
                intermediates: intermediates@,
                ignore: *ignore,
                action: *action,
            },
            Event::OscDispatch { params, bell_terminated } => EventV::OscDispatch {
                params: params@.map(|i: int, v: Vec<u8>| v@),
                bell_terminated: *bell_terminated,
            },
            Event::Hook { params, intermediates, ignore, action } => EventV::Hook {
                params: params@,
                intermediates: intermediates@,
                ignore: *ignore,
                action: *action,
            },
            Event::Put(b) => EventV::Put(*b),
            Event::Unhook => EventV::Unhook,
        }
    }
}

pub open spec fn opt_event_view(r: Option<Event>) -> Option<EventV> {
    match r {
        Some(e) => Some(e@),
        None => None,
    }
}

/// The mathematical image of the parser state.
#[verifier::ext_equal]
pub struct ParserModel {
    pub state: State,
    pub intermediates: Seq<u8>,
    pub ignoring: bool,
    pub params: Seq<i64>,
    pub param: i64,
    pub osc_params: Seq<Seq<u8>>,
    pub osc_bytes: usize,
    pub utf8_remaining: u8,
    pub utf8_value: u32,
}

impl ParserModel {
    /// Buffers inside their caps; the UTF-8 accumulator small enough for its
    /// outstanding continuation bytes.
    pub open spec fn wf(self) -> bool {
        &&& self.intermediates.len() <= MAX_INTERMEDIATES
        &&& self.params.len() <= MAX_PARAMS
        &&& 0 <= self.param
        &&& 1 <= self.osc_params.len() <= MAX_OSC_PARAMS
        &&& self.osc_bytes <= MAX_OSC_BYTES
        &&& self.utf8_remaining <= 3
        &&& (self.state == State::Utf8 ==> self.utf8_remaining >= 1)
        &&& self.utf8_value <= 0x1fffff
        &&& (self.utf8_remaining == 3 ==> self.utf8_value <= 0x7)
        &&& (self.utf8_remaining == 2 ==> self.utf8_value <= 0x1ff)
        &&& (self.utf8_remaining == 1 ==> self.utf8_value <= 0x7fff)
    }

    pub open spec fn initial() -> ParserModel {
        ParserModel {
            state: State::Ground,
            intermediates: Seq::empty(),
            ignoring: false,
            params: Seq::empty(),
            param: 0,
            osc_params: seq![Seq::empty()],
            osc_bytes: 0,
            utf8_remaining: 0,
            utf8_value: 0,
        }
    }
}

// ---------------------------------------------------------------------------
// Spec-level pieces of a step.
// ---------------------------------------------------------------------------

/// Clear per-sequence accumulators (on entering an escape).
pub open spec fn spec_clear(m: ParserModel) -> ParserModel {
    ParserModel {
        intermediates: Seq::empty(),
        ignoring: false,
        params: Seq::empty(),
        param: 0,
        ..m
    }
}

/// Collect an intermediate byte; beyond the cap the sequence is marked
/// ignored.
pub open spec fn spec_collect(m: ParserModel, b: u8) -> ParserModel {
    if m.intermediates.len() < MAX_INTERMEDIATES {
        ParserModel { intermediates: m.intermediates.push(b), ..m }
    } else {
        ParserModel { ignoring: true, ..m }
    }
}

/// Extend the current numeric parameter by a digit, saturating.
pub open spec fn spec_param_digit(m: ParserModel, b: u8) -> ParserModel {
    let d = (b - 48) as int;
    let v = if m.param > (0x7fff_ffff_ffff_ffff - d) / 10 {
        0x7fff_ffff_ffff_ffffi64
    } else {
        (m.param * 10 + d) as i64
    };
    ParserModel { param: v, ..m }
}

/// Close the current parameter at a `;`; beyond the cap the sequence is
/// marked ignored.
pub open spec fn spec_param_sep(m: ParserModel) -> ParserModel {
    if m.params.len() < MAX_PARAMS {
        ParserModel { params: m.params.push(m.param), param: 0, ..m }
    } else {
        ParserModel { ignoring: true, param: 0, ..m }
    }
}

/// The parameter list handed to a CSI or DCS dispatch: the parameters closed
/// so far plus the one being accumulated, if there is room.
pub open spec fn spec_final_params(m: ParserModel) -> Seq<i64> {
    if m.params.len() < MAX_PARAMS {
        m.params.push(m.param)
    } else {
        m.params
    }
}

/// Append a byte to the OSC accumulator: `;` opens the next parameter while
/// there is room; other bytes extend the last parameter up to the byte cap.
pub open spec fn spec_osc_put(m: ParserModel, b: u8) -> ParserModel {
    if b == 59 {
        if m.osc_params.len() < MAX_OSC_PARAMS {
            ParserModel { osc_params: m.osc_params.push(Seq::empty()), ..m }
        } else if m.osc_bytes < MAX_OSC_BYTES {
            ParserModel {
                osc_params: m.osc_params.update(
                    m.osc_params.len() - 1,
                    m.osc_params.last().push(b),
                ),
                osc_bytes: (m.osc_bytes + 1) as usize,
                ..m
            }
        } else {
            m
        }
    } else if m.osc_bytes < MAX_OSC_BYTES {
        ParserModel {
            osc_params: m.osc_params.update(m.osc_params.len() - 1, m.osc_params.last().push(b)),
            osc_bytes: (m.osc_bytes + 1) as usize,
            ..m
        }
    } else {
        m
    }
}

pub open spec fn is_c0_other(b: u8) -> bool {
    (b <= 0x17 || b == 0x19 || (0x1c <= b && b <= 0x1f))
}

/// The character an assembled code point prints: the scalar itself, or the
/// replacement character for values that are no Unicode scalar.
pub open spec fn spec_decoded_char(v: u32) -> char {
    if v < 0xd800 || (0xe000 <= v && v <= 0x10ffff) {
        v as char
    } else {
        '\u{fffd}'
    }
}

/// One step of the machine: the next state and the event the byte fires.
pub open spec fn spec_step(m: ParserModel, b: u8) -> (ParserModel, Option<EventV>) {
    if b == 0x18 || b == 0x1a {
        // CAN and SUB abort any sequence.
        let g = ParserModel { state: State::Ground, utf8_remaining: 0, utf8_value: 0, ..m };
        if m.state == State::OscString {
            (g, Some(EventV::Execute(b)))
        } else if m.state == State::DcsPassthrough {
            (g, Some(EventV::Unhook))
        } else {
            (g, Some(EventV::Execute(b)))
        }
    } else if b == 0x1b {
        // ESC opens a new escape from every state, closing strings.
        let e = spec_clear(
            ParserModel { state: State::Escape, utf8_remaining: 0, utf8_value: 0, ..m },
        );
        if m.state == State::OscString {
            (e, Some(EventV::OscDispatch { params: m.osc_params, bell_terminated: false }))
        } else if m.state == State::DcsPassthrough {
            (e, Some(EventV::Unhook))
        } else {
            (e, None)
        }
    } else {
        match m.state {
            State::Ground => {
                if is_c0_other(b) || b == 0x7f {
                    (m, Some(EventV::Execute(b)))
                } else if 0x20 <= b && b <= 0x7e {
                    (m, Some(EventV::Print(b as char)))
                } else if 0xc2 <= b && b <= 0xdf {
                    (
                        ParserModel {
                            state: State::Utf8,
                            utf8_remaining: 1,
                            utf8_value: (b - 0xc0) as u32,
                            ..m
                        },
                        None,
                    )
                } else if 0xe0 <= b && b <= 0xef {
                    (
                        ParserModel {
                            state: State::Utf8,
                            utf8_remaining: 2,
                            utf8_value: (b - 0xe0) as u32,
                            ..m
                        },
                        None,
                    )
                } else if 0xf0 <= b && b <= 0xf4 {
                    (
                        ParserModel {
                            state: State::Utf8,
                            utf8_remaining: 3,
                            utf8_value: (b - 0xf0) as u32,
                            ..m
                        },
                        None,
                    )
                } else {
                    (m, Some(EventV::Print('\u{fffd}')))
                }
            },
            State::Utf8 => {
                if 0x80 <= b && b <= 0xbf {
                    let v = (m.utf8_value * 64 + (b - 0x80)) as u32;
                    if m.utf8_remaining == 1 {
                        (
                            ParserModel {
                                state: State::Ground,
                                utf8_remaining: 0,
                                utf8_value: 0,
                                ..m
                            },
                            Some(EventV::Print(spec_decoded_char(v))),
                        )
                    } else {
                        (
                            ParserModel {
                                utf8_remaining: (m.utf8_remaining - 1) as u8,
                                utf8_value: v,
                                ..m
                            },
                            None,
                        )
                    }
                } else {
                    // A broken sequence prints the replacement character; the
                    // stray byte is dropped.
                    (
                        ParserModel { state: State::Ground, utf8_remaining: 0, utf8_value: 0, ..m },
                        Some(EventV::Print('\u{fffd}')),
                    )
                }
            },
            State::Escape => {
                if is_c0_other(b) {
                    (m, Some(EventV::Execute(b)))
                } else if 0x20 <= b && b <= 0x2f {
                    (spec_collect(ParserModel { state: State::EscapeIntermediate, ..m }, b), None)
                } else if b == 0x50 {
                    (ParserModel { state: State::DcsEntry, ..m }, None)
                } else if b == 0x58 || b == 0x5e || b == 0x5f {
                    (ParserModel { state: State::SosPmApcString, ..m }, None)
                } else if b == 0x5b {
                    (ParserModel { state: State::CsiEntry, ..m }, None)
                } else if b == 0x5d {
                    (
                        ParserModel {
                            state: State::OscString,
                            osc_params: seq![Seq::empty()],
                            osc_bytes: 0,
                            ..m
                        },
                        None,
                    )
                } else if 0x30 <= b && b <= 0x7e {
                    (
                        ParserModel { state: State::Ground, ..m },
                        Some(
                            EventV::EscDispatch {
                                intermediates: m.intermediates,
                                ignore: m.ignoring,
                                byte: b,
                            },
                        ),
                    )
                } else {
                    (m, None)
                }
            },
            State::EscapeIntermediate => {
                if is_c0_other(b) {
                    (m, Some(EventV::Execute(b)))
                } else if 0x20 <= b && b <= 0x2f {
                    (spec_collect(m, b), None)
                } else if 0x30 <= b && b <= 0x7e {
                    (
                        ParserModel { state: State::Ground, ..m },
                        Some(
                            EventV::EscDispatch {
                                intermediates: m.intermediates,
                                ignore: m.ignoring,
                                byte: b,
                            },
                        ),
                    )
                } else {
                    (m, None)
                }
            },
            State::CsiEntry | State::CsiParam => {
                if is_c0_other(b) {
                    (m, Some(EventV::Execute(b)))
                } else if 0x30 <= b && b <= 0x39 {
                    (spec_param_digit(ParserModel { state: State::CsiParam, ..m }, b), None)
                } else if b == 0x3b {
                    (spec_param_sep(ParserModel { state: State::CsiParam, ..m }), None)
                } else if b == 0x3a {
                    (ParserModel { state: State::CsiIgnore, ..m }, None)
                } else if 0x3c <= b && b <= 0x3f {
                    if m.state == State::CsiEntry {
                        (spec_collect(ParserModel { state: State::CsiParam, ..m }, b), None)
                    } else {
                        (ParserModel { state: State::CsiIgnore, ..m }, None)
                    }
                } else if 0x20 <= b && b <= 0x2f {
                    (spec_collect(ParserModel { state: State::CsiIntermediate, ..m }, b), None)
                } else if 0x40 <= b && b <= 0x7e {
                    (
                        ParserModel { state: State::Ground, ..m },
                        Some(
                            EventV::CsiDispatch {
                                params: spec_final_params(m),
                                intermediates: m.intermediates,
                                ignore: m.ignoring,
                                action: b as char,
                            },
                        ),
                    )
                } else {
                    (m, None)
                }
            },
            State::CsiIntermediate => {
                if is_c0_other(b) {
                    (m, Some(EventV::Execute(b)))
                } else if 0x20 <= b && b <= 0x2f {
                    (spec_collect(m, b), None)
                } else if 0x30 <= b && b <= 0x3f {
                    (ParserModel { state: State::CsiIgnore, ..m }, None)
                } else if 0x40 <= b && b <= 0x7e {
                    (
                        ParserModel { state: State::Ground, ..m },
                        Some(
                            EventV::CsiDispatch {
                                params: spec_final_params(m),
                                intermediates: m.intermediates,
                                ignore: m.ignoring,
                                action: b as char,
                            },
                        ),
                    )
                } else {
                    (m, None)
                }
            },
            State::CsiIgnore => {
                if is_c0_other(b) {
                    (m, Some(EventV::Execute(b)))
                } else if 0x40 <= b && b <= 0x7e {
                    (ParserModel { state: State::Ground, ..m }, None)
                } else {
                    (m, None)
                }
            },
            State::OscString => {
                if b == 0x07 {
                    (
                        ParserModel { state: State::Ground, ..m },
                        Some(
                            EventV::OscDispatch { params: m.osc_params, bell_terminated: true },
                        ),
                    )
                } else if b >= 0x20 {
                    (spec_osc_put(m, b), None)
                } else {
                    (m, None)
                }
            },
            State::DcsEntry | State::DcsParam => {
                if 0x30 <= b && b <= 0x39 {
                    (spec_param_digit(ParserModel { state: State::DcsParam, ..m }, b), None)
                } else if b == 0x3b {
                    (spec_param_sep(ParserModel { state: State::DcsParam, ..m }), None)
                } else if b == 0x3a {
                    (ParserModel { state: State::DcsIgnore, ..m }, None)
                } else if 0x3c <= b && b <= 0x3f {
                    if m.state == State::DcsEntry {
                        (spec_collect(ParserModel { state: State::DcsParam, ..m }, b), None)
                    } else {
                        (ParserModel { state: State::DcsIgnore, ..m }, None)
                    }
                } else if 0x20 <= b && b <= 0x2f {
                    (spec_collect(ParserModel { state: State::DcsIntermediate, ..m }, b), None)
                } else if 0x40 <= b && b <= 0x7e {
                    (
                        ParserModel { state: State::DcsPassthrough, ..m },
                        Some(
                            EventV::Hook {
                                params: spec_final_params(m),
                                intermediates: m.intermediates,
                                ignore: m.ignoring,
                                action: b as char,
                            },
                        ),
                    )
                } else {
                    (m, None)
                }
            },
            State::DcsIntermediate => {
                if 0x20 <= b && b <= 0x2f {
                    (spec_collect(m, b), None)
                } else if 0x30 <= b && b <= 0x3f {
                    (ParserModel { state: State::DcsIgnore, ..m }, None)
                } else if 0x40 <= b && b <= 0x7e {
                    (
                        ParserModel { state: State::DcsPassthrough, ..m },
                        Some(
                            EventV::Hook {
                                params: spec_final_params(m),
                                intermediates: m.intermediates,
                                ignore: m.ignoring,
                                action: b as char,
                            },
                        ),
                    )
                } else {
                    (m, None)
                }
            },
            State::DcsPassthrough => {
                if b == 0x7f {
                    (m, None)
                } else {
                    (m, Some(EventV::Put(b)))
                }
            },
            State::DcsIgnore | State::SosPmApcString => (m, None),
        }
    }
}

/// Folding `spec_step` over a byte string: the final state and the events
/// fired, in order.
pub open spec fn spec_run(m: ParserModel, bytes: Seq<u8>) -> (ParserModel, Seq<EventV>)
    decreases bytes.len(),
{
    if bytes.len() == 0 {
        (m, Seq::empty())
    } else {
        let (m1, ev) = spec_step(m, bytes[0]);
        let (m2, evs) = spec_run(m1, bytes.skip(1));
        (
            m2,
            match ev {
                Some(e) => seq![e] + evs,
                None => evs,
            },
        )
    }
}

/// The parser is insensitive to fragmentation: feeding `a` then `b` reaches
/// the state of feeding `a + b` at once and fires the same events in the
/// same order. Applied inductively this covers any split, in particular one
/// byte at a time.
pub proof fn lemma_parser_byte_split(m: ParserModel, a: Seq<u8>, b: Seq<u8>)
    ensures
        spec_run(m, a + b).0 == spec_run(spec_run(m, a).0, b).0,
        spec_run(m, a + b).1 == spec_run(m, a).1 + spec_run(spec_run(m, a).0, b).1,
    decreases a.len(),
{
    if a.len() == 0 {
        assert(a + b =~= b);
        assert(spec_run(m, a).1 + spec_run(spec_run(m, a).0, b).1 =~= spec_run(m, b).1);
    } else {
        let (m1, ev) = spec_step(m, a[0]);
        assert((a + b)[0] == a[0]);
        assert((a + b).skip(1) =~= a.skip(1) + b);
        lemma_parser_byte_split(m1, a.skip(1), b);
        match ev {
            Some(e) => {
                assert(spec_run(m, a + b).1 =~= seq![e] + spec_run(m1, a.skip(1) + b).1);
                assert(spec_run(m, a).1 + spec_run(spec_run(m, a).0, b).1 =~= seq![e] + (spec_run(
                    m1,
                    a.skip(1),
                ).1 + spec_run(spec_run(m1, a.skip(1)).0, b).1));
            },
            None => {},
        }
    }
}

/// A step keeps the state well formed.
pub proof fn lemma_step_wf(m: ParserModel, b: u8)
    requires
        m.wf(),
    ensures
        spec_step(m, b).0.wf(),
{
}

// ---------------------------------------------------------------------------
// The executable parser.
// ---------------------------------------------------------------------------

/// The escape-sequence parser; `step` realizes exactly `spec_step` on the
/// model.
pub struct Parser {
    pub state: State,
    pub intermediates: Vec<u8>,
    pub ignoring: bool,
    pub params: Vec<i64>,
    pub param: i64,
    pub osc_params: Vec<Vec<u8>>,
    pub osc_bytes: usize,
    pub utf8_remaining: u8,
    pub utf8_value: u32,
}

impl View for Parser {
    type V = ParserModel;

    open spec fn view(&self) -> ParserModel {
        ParserModel {
            state: self.state,
            intermediates: self.intermediates@,
            ignoring: self.ignoring,
            params: self.params@,
            param: self.param,
            osc_params: self.osc_params@.map(|i: int, v: Vec<u8>| v@),
            osc_bytes: self.osc_bytes,
            utf8_remaining: self.utf8_remaining,
            utf8_value: self.utf8_value,
        }
    }
}

impl Parser {
    pub open spec fn wf(&self) -> bool {
        self@.wf() && self.osc_params@.len() <= MAX_OSC_PARAMS
    }

    /// A parser in the ground state.
    pub fn new() -> (r: Parser)
        ensures
            r.wf(),
            r@ =~~= ParserModel::initial(),
    {
        let mut osc_params: Vec<Vec<u8>> = Vec::new();
        osc_params.push(Vec::new());
        let p = Parser {
            state: State::Ground,
            intermediates: Vec::new(),
            ignoring: false,
            params: Vec::new(),
            param: 0,
            osc_params,
            osc_bytes: 0,
            utf8_remaining: 0,
            utf8_value: 0,
        };
        proof {
            assert(p@.osc_params =~~= seq![Seq::<u8>::empty()]);
            assert(p@ =~~= ParserModel::initial());
        }
        p
    }

    fn clear(&mut self)
        requires
            old(self).wf(),
        ensures
            final(self).wf(),
            final(self)@ =~~= spec_clear(old(self)@),
    {
        self.intermediates = Vec::new();
        self.ignoring = false;
        self.params = Vec::new();
        self.param = 0;
    }

    fn collect(&mut self, b: u8)
        requires
            old(self).wf(),
        ensures
            final(self).wf(),
            final(self)@ =~~= spec_collect(old(self)@, b),
    {
        if self.intermediates.len() < MAX_INTERMEDIATES {
            self.intermediates.push(b);
        } else {
            self.ignoring = true;
        }
    }

    fn param_digit(&mut self, b: u8)
        requires
            old(self).wf(),
            48 <= b <= 57,
        ensures
            final(self).wf(),
            final(self)@ =~~= spec_param_digit(old(self)@, b),
    {
        let d = (b - 48) as i64;
        if self.param > (0x7fff_ffff_ffff_ffffi64 - d) / 10 {
            self.param = 0x7fff_ffff_ffff_ffffi64;
        } else {
            self.param = self.param * 10 + d;
        }
    }

    fn param_sep(&mut self)
        requires
            old(self).wf(),
        ensures
            final(self).wf(),
            final(self)@ =~~= spec_param_sep(old(self)@),
    {
        if self.params.len() < MAX_PARAMS {
            self.params.push(self.param);
            self.param = 0;
        } else {
            self.ignoring = true;
            self.param = 0;
        }
    }

    /// The parameters handed to a dispatch.
    fn final_params(&self) -> (r: Vec<i64>)
        requires
            self.wf(),
        ensures
            r@ == spec_final_params(self@),
    {
        let mut out = copy_params(&self.params);
        if self.params.len() < MAX_PARAMS {
            out.push(self.param);
        }
        out
    }

    fn osc_put(&mut self, b: u8)
        requires
            old(self).wf(),
        ensures
            final(self).wf(),
            final(self)@ =~~= spec_osc_put(old(self)@, b),
    {
        let ghost old_params = self.osc_params@;
        if b == 59 && self.osc_params.len() < MAX_OSC_PARAMS {
            self.osc_params.push(Vec::new());
            proof {
                assert(self@.osc_params =~~= old_params.map(|i: int, v: Vec<u8>| v@).push(
                    Seq::<u8>::empty(),
                ));
            }
        } else if self.osc_bytes < MAX_OSC_BYTES {
            let last = self.osc_params.len() - 1;
            let ghost old_last = self.osc_params@[last as int]@;
            let mut cur = self.osc_params.remove(last);
            cur.push(b);
            self.osc_params.push(cur);
            self.osc_bytes = self.osc_bytes + 1;
            proof {
                assert(self@.osc_params =~~= old_params.map(|i: int, v: Vec<u8>| v@).update(
                    old_params.len() - 1,
                    old_params.map(|i: int, v: Vec<u8>| v@).last().push(b),
                ));
            }
        }
    }

    /// The events of one OSC dispatch: an owned copy of the parameters.
    fn osc_event(&self, bell_terminated: bool) -> (r: Event)
        requires
            self.wf(),
        ensures
            r@ == (EventV::OscDispatch { params: self@.osc_params, bell_terminated }),
    {
        let mut params: Vec<Vec<u8>> = Vec::new();
        let mut i: usize = 0;
        while i < self.osc_params.len()
            invariant
                i <= self.osc_params@.len(),
                params@.len() == i,
                forall|j: int| 0 <= j < i ==> (#[trigger] params@[j])@ == self.osc_params@[j]@,
            decreases self.osc_params@.len() - i,
        {
            params.push(copy_bytes(&self.osc_params[i]));
            i += 1;
        }
        let r = Event::OscDispatch { params, bell_terminated };
        proof {
            assert(params@.map(|i: int, v: Vec<u8>| v@) =~~= self.osc_params@.map(
                |i: int, v: Vec<u8>| v@,
            ));
        }
        r
    }

    /// Feed one byte; the returned event is the callback the byte fires.
    #[verifier::rlimit(100)]
    #[verifier::spinoff_prover]
    pub fn step(&mut self, b: u8) -> (r: Option<Event>)
        requires
            old(self).wf(),
        ensures
            final(self).wf(),
            final(self)@ =~~= spec_step(old(self)@, b).0,
            opt_event_view(r) == spec_step(old(self)@, b).1,
    {
        if b == 0x18 || b == 0x1a {
            let was = self.state;
            self.state = State::Ground;
            self.utf8_remaining = 0;
            self.utf8_value = 0;
            if was == State::DcsPassthrough {
                return Some(Event::Unhook);
            }
            return Some(Event::Execute(b));
        }
        if b == 0x1b {
            let was = self.state;
            let ev: Option<Event> = if was == State::OscString {
                Some(self.osc_event(false))
            } else if was == State::DcsPassthrough {
                Some(Event::Unhook)
            } else {
                None
            };
            self.state = State::Escape;
            self.utf8_remaining = 0;
            self.utf8_value = 0;
            self.clear();
            return ev;
        }
        match self.state {
            State::Ground => {
                if b <= 0x17 || b == 0x19 || (0x1c <= b && b <= 0x1f) || b == 0x7f {
                    Some(Event::Execute(b))
                } else if 0x20 <= b && b <= 0x7e {
                    let c = decode_or_replace(b as u32);
                    proof {
                        assert(spec_decoded_char(b as u32) == (b as char)) by {
                            vstd::utf8::char_u32_cast(b as char, b as u32);
                        }
                    }
                    Some(Event::Print(c))
                } else if 0xc2 <= b && b <= 0xdf {
                    self.state = State::Utf8;
                    self.utf8_remaining = 1;
                    self.utf8_value = (b - 0xc2 + 2) as u32;
                    proof {
                        assert(self.utf8_value == (b - 0xc0) as u32);
                    }
                    None
                } else if 0xe0 <= b && b <= 0xef {
                    self.state = State::Utf8;
                    self.utf8_remaining = 2;
                    self.utf8_value = (b - 0xe0) as u32;
                    None
                } else if 0xf0 <= b && b <= 0xf4 {
                    self.state = State::Utf8;
                    self.utf8_remaining = 3;
                    self.utf8_value = (b - 0xf0) as u32;
                    None
                } else {
                    Some(Event::Print('\u{fffd}'))
                }
            },
            State::Utf8 => {
                if 0x80 <= b && b <= 0xbf {
                    let v = self.utf8_value * 64 + ((b - 0x80) as u32);
                    if self.utf8_remaining == 1 {
                        self.state = State::Ground;
                        self.utf8_remaining = 0;
                        self.utf8_value = 0;
                        Some(Event::Print(decode_or_replace(v)))
                    } else {
                        self.utf8_remaining = self.utf8_remaining - 1;
                        self.utf8_value = v;
                        None
                    }
                } else {
                    self.state = State::Ground;
                    self.utf8_remaining = 0;
                    self.utf8_value = 0;
                    Some(Event::Print('\u{fffd}'))
                }
            },
            State::Escape => {
                if b <= 0x17 || b == 0x19 || (0x1c <= b && b <= 0x1f) {
                    Some(Event::Execute(b))
                } else if 0x20 <= b && b <= 0x2f {
                    self.state = State::EscapeIntermediate;
                    self.collect(b);
                    None
                } else if b == 0x50 {
                    self.state = State::DcsEntry;
                    None
                } else if b == 0x58 || b == 0x5e || b == 0x5f {
                    self.state = State::SosPmApcString;
                    None
                } else if b == 0x5b {
                    self.state = State::CsiEntry;
                    None
                } else if b == 0x5d {
                    self.state = State::OscString;
                    self.osc_params = Vec::new();
                    self.osc_params.push(Vec::new());
                    self.osc_bytes = 0;
                    proof {
                        assert(self@.osc_params =~~= seq![Seq::<u8>::empty()]);
                    }
                    None
                } else if 0x30 <= b && b <= 0x7e {
                    self.state = State::Ground;
                    Some(
                        Event::EscDispatch {
                            intermediates: copy_bytes(&self.intermediates),
                            ignore: self.ignoring,
                            byte: b,
                        },
                    )
                } else {
                    None
                }
            },
            State::EscapeIntermediate => {
                if b <= 0x17 || b == 0x19 || (0x1c <= b && b <= 0x1f) {
                    Some(Event::Execute(b))
                } else if 0x20 <= b && b <= 0x2f {
                    self.collect(b);
                    None
                } else if 0x30 <= b && b <= 0x7e {
                    self.state = State::Ground;
                    Some(
                        Event::EscDispatch {
                            intermediates: copy_bytes(&self.intermediates),
                            ignore: self.ignoring,
                            byte: b,
                        },
                    )
                } else {
                    None
                }
            },
            State::CsiEntry | State::CsiParam => {
                let entry = match self.state {
                    State::CsiEntry => true,
                    _ => false,
                };
                if b <= 0x17 || b == 0x19 || (0x1c <= b && b <= 0x1f) {
                    Some(Event::Execute(b))
                } else if 0x30 <= b && b <= 0x39 {
                    self.state = State::CsiParam;
                    self.param_digit(b);
                    None
                } else if b == 0x3b {
                    self.state = State::CsiParam;
                    self.param_sep();
                    None
                } else if b == 0x3a {
                    self.state = State::CsiIgnore;
                    None
                } else if 0x3c <= b && b <= 0x3f {
                    if entry {
                        self.state = State::CsiParam;
                        self.collect(b);
                    } else {
                        self.state = State::CsiIgnore;
                    }
                    None
                } else if 0x20 <= b && b <= 0x2f {
                    self.state = State::CsiIntermediate;
                    self.collect(b);
                    None
                } else if 0x40 <= b && b <= 0x7e {
                    let params = self.final_params();
                    let action = decode_or_replace(b as u32);
                    proof {
                        assert(spec_decoded_char(b as u32) == (b as char)) by {
                            vstd::utf8::char_u32_cast(b as char, b as u32);
                        }
                    }
                    self.state = State::Ground;
                    Some(
                        Event::CsiDispatch {
                            params,
                            intermediates: copy_bytes(&self.intermediates),
                            ignore: self.ignoring,
                            action,
                        },
                    )
                } else {
                    None
                }
            },
            State::CsiIntermediate => {
                if b <= 0x17 || b == 0x19 || (0x1c <= b && b <= 0x1f) {
                    Some(Event::Execute(b))
                } else if 0x20 <= b && b <= 0x2f {
                    self.collect(b);
                    None
                } else if 0x30 <= b && b <= 0x3f {
                    self.state = State::CsiIgnore;
                    None
                } else if 0x40 <= b && b <= 0x7e {
                    let params = self.final_params();
                    let action = decode_or_replace(b as u32);
                    proof {
                        assert(spec_decoded_char(b as u32) == (b as char)) by {
                            vstd::utf8::char_u32_cast(b as char, b as u32);
                        }
                    }
                    self.state = State::Ground;
                    Some(
                        Event::CsiDispatch {
                            params,
                            intermediates: copy_bytes(&self.intermediates),
                            ignore: self.ignoring,
                            action,
                        },
                    )
                } else {
                    None
                }
            },
            State::CsiIgnore => {
                if b <= 0x17 || b == 0x19 || (0x1c <= b && b <= 0x1f) {
                    Some(Event::Execute(b))
                } else if 0x40 <= b && b <= 0x7e {
                    self.state = State::Ground;
                    None
                } else {
                    None
                }
            },
            State::OscString => {
                if b == 0x07 {
                    let ev = self.osc_event(true);
                    self.state = State::Ground;
                    Some(ev)
                } else if b >= 0x20 {
                    self.osc_put(b);
                    None
                } else {
                    None
                }
            },
            State::DcsEntry | State::DcsParam => {
                let entry = match self.state {
                    State::DcsEntry => true,
                    _ => false,
                };
                if 0x30 <= b && b <= 0x39 {
                    self.state = State::DcsParam;
                    self.param_digit(b);
                    None
                } else if b == 0x3b {
                    self.state = State::DcsParam;
                    self.param_sep();
                    None
                } else if b == 0x3a {
                    self.state = State::DcsIgnore;
                    None
                } else if 0x3c <= b && b <= 0x3f {
                    if entry {
                        self.state = State::DcsParam;
                        self.collect(b);
                    } else {
                        self.state = State::DcsIgnore;
                    }
                    None
                } else if 0x20 <= b && b <= 0x2f {
                    self.state = State::DcsIntermediate;
                    self.collect(b);
                    None
                } else if 0x40 <= b && b <= 0x7e {
                    let params = self.final_params();
                    let action = decode_or_replace(b as u32);
                    proof {
                        assert(spec_decoded_char(b as u32) == (b as char)) by {
                            vstd::utf8::char_u32_cast(b as char, b as u32);
                        }
                    }
                    self.state = State::DcsPassthrough;
                    Some(
                        Event::Hook {
                            params,
                            intermediates: copy_bytes(&self.intermediates),
                            ignore: self.ignoring,
                            action,
                        },
                    )
                } else {
                    None
                }
            },
            State::DcsIntermediate => {
                if 0x20 <= b && b <= 0x2f {
                    self.collect(b);
                    None
                } else if 0x30 <= b && b <= 0x3f {
                    self.state = State::DcsIgnore;
                    None
                } else if 0x40 <= b && b <= 0x7e {
                    let params = self.final_params();
                    let action = decode_or_replace(b as u32);
                    proof {
                        assert(spec_decoded_char(b as u32) == (b as char)) by {
                            vstd::utf8::char_u32_cast(b as char, b as u32);
                        }
                    }
                    self.state = State::DcsPassthrough;
                    Some(
                        Event::Hook {
                            params,
                            intermediates: copy_bytes(&self.intermediates),
                            ignore: self.ignoring,
                            action,
                        },
                    )
                } else {
                    None
                }
            },
            State::DcsPassthrough => {
                if b == 0x7f {
                    None
                } else {
                    Some(Event::Put(b))
                }
            },
            State::DcsIgnore | State::SosPmApcString => None,
        }
    }
}

/// The character of a code point, or the replacement character where the
/// value is no Unicode scalar. Relies on `char::from_u32` of std: `Some`
/// exactly on Unicode scalar values, returning the scalar itself.
pub assume_specification [ char::from_u32 ](v: u32) -> (r: Option<char>)
    ensures
        r matches Some(c) ==> c as u32 == v,
        r is Some <==> (v < 0xd800 || (0xe000 <= v && v <= 0x10ffff)),
;

fn decode_or_replace(v: u32) -> (r: char)
    ensures
        r == spec_decoded_char(v),
{
    match char::from_u32(v) {
        Some(c) => {
            proof {
                vstd::utf8::char_u32_cast(c, v);
            }
            c
        },
        None => '\u{fffd}',
    }
}

/// An owned copy of a parameter vector.
fn copy_params(v: &Vec<i64>) -> (r: Vec<i64>)
    ensures
        r@ == v@,
{
    let mut out: Vec<i64> = Vec::new();
    let mut i: usize = 0;
    while i < v.len()
        invariant
            i <= v@.len(),
            out@ =~= v@.take(i as int),
        decreases v@.len() - i,
    {
        out.push(v[i]);
        proof {
            assert(out@ =~= v@.take(i + 1));
        }
        i += 1;
    }
    proof {
        assert(out@ =~= v@);
    }
    out
}

} // verus!
