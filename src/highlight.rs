//! The highlight-event interpreter: it folds a stream of span and style
//! events over a text into the glyphs to draw.

use crate::layout::{
    char_is_drawn, drawn_lines, glyph_lines, glyphs, lemma_lines_of_places, lemma_lines_with_glyphs,
    lemma_pen_after_concat, lemma_places_concat, pen_after, places, start_pen, DrawInstruction, Pen,
    LEFT_MARGIN, TAB_ADVANCE,
};
use crate::palette::{category_color, resolve, Rgb};
use vstd::prelude::*;
use vstd::string::StringSliceAdditionalSpecFns;
use vstd::utf8::*;

verus! {

broadcast use {encode_utf8_valid_utf8, encode_utf8_decode_utf8};

/// The glyph advances that a pass may use: a pass whose spans hold more
/// bytes than this is refused, so that every line and column fits.
pub const LAYOUT_BUDGET: usize = (usize::MAX - 1) / 2;

/// One annotation of a text, in the order a parser produced them.
#[derive(Clone, Copy, Debug, PartialEq, Eq, Structural)]
pub enum HighlightEvent {
    /// Bytes `start..end` of the text, drawn in the current colour.
    Source { start: usize, end: usize },
    /// From here on, the colour of this lexical category.
    HighlightStart(usize),
    /// The end of a category; it changes nothing.
    HighlightEnd,
}

/// Why a pass stopped.
#[derive(Clone, Copy, Debug, PartialEq, Eq, Structural)]
pub enum RenderError {
    /// Event `index` names bytes that are not a run of whole characters of
    /// the text.
    InvalidSpan { index: usize },
    /// The spans hold more bytes than `LAYOUT_BUDGET`.
    TooLong,
}

/// The colour glyphs have before any category is started.
pub open spec fn default_foreground() -> Rgb {
    Rgb { r: 178, g: 184, b: 194 }
}

/// The colour glyphs have before any category is started.
pub fn default_color() -> (c: Rgb)
    ensures
        c == default_foreground(),
{
    Rgb { r: 178, g: 184, b: 194 }
}

/// The characters of bytes `start..end` of `text`'s UTF-8 encoding, where
/// both ends fall between characters.
pub open spec fn span_chars(text: Seq<char>, start: int, end: int) -> Option<Seq<char>> {
    let bytes = encode_utf8(text);
    if 0 <= start <= end <= bytes.len() && is_char_boundary(bytes, start) && is_char_boundary(
        bytes,
        end,
    ) {
        Some(decode_utf8(bytes.subrange(start, end)))
    } else {
        None
    }
}

/// The state of a pass between two events.
pub struct Pass {
    pub pen: Pen,
    pub style: usize,
    pub color: Rgb,
    pub draws: Seq<DrawInstruction>,
}

/// The state before the first event: category 0 counts as active, drawn in
/// the default colour.
pub open spec fn start_pass() -> Pass {
    Pass { pen: start_pen(), style: 0, color: default_foreground(), draws: seq![] }
}

/// The state after event `e`, or `None` where it names an invalid span.
/// Starting the active category again changes nothing; starting a category
/// without a colour keeps the colour and makes it the active one.
pub open spec fn apply_event(text: Seq<char>, p: Pass, e: HighlightEvent) -> Option<Pass> {
    match e {
        HighlightEvent::Source { start, end } => match span_chars(text, start as int, end as int) {
            Some(cs) => Some(
                Pass {
                    pen: pen_after(p.pen, cs),
                    style: p.style,
                    color: p.color,
                    draws: p.draws + glyphs(p.pen, p.color, cs),
                },
            ),
            None => None,
        },
        HighlightEvent::HighlightStart(s) => {
            if s == p.style {
                Some(p)
            } else {
                Some(
                    Pass {
                        pen: p.pen,
                        style: s,
                        color: match category_color(s as int) {
                            Some(c) => c,
                            None => p.color,
                        },
                        draws: p.draws,
                    },
                )
            }
        },
        HighlightEvent::HighlightEnd => Some(p),
    }
}

/// The state after all of `events`, or the index of the first event that
/// names an invalid span.
pub open spec fn run_events(text: Seq<char>, events: Seq<HighlightEvent>) -> Result<Pass, usize>
    decreases events.len(),
{
    if events.len() == 0 {
        Ok(start_pass())
    } else {
        match run_events(text, events.drop_last()) {
            Ok(p) => match apply_event(text, p, events.last()) {
                Some(q) => Ok(q),
                None => Err((events.len() - 1) as usize),
            },
            Err(i) => Err(i),
        }
    }
}

/// The bytes that an event lays out.
pub open spec fn span_len(e: HighlightEvent) -> nat {
    match e {
        HighlightEvent::Source { start, end } => {
            if start <= end {
                (end - start) as nat
            } else {
                0
            }
        },
        _ => 0,
    }
}

/// The bytes that all of `events` lay out.
pub open spec fn span_total(events: Seq<HighlightEvent>) -> nat
    decreases events.len(),
{
    if events.len() == 0 {
        0
    } else {
        span_total(events.drop_last()) + span_len(events.last())
    }
}

/// What one pass over `text` and `events` yields: the glyphs to draw, or why
/// it stopped.
pub open spec fn interpretation(text: Seq<char>, events: Seq<HighlightEvent>) -> Result<
    Seq<DrawInstruction>,
    RenderError,
> {
    if span_total(events) > LAYOUT_BUDGET {
        Err(RenderError::TooLong)
    } else {
        match run_events(text, events) {
            Ok(p) => Ok(p.draws),
            Err(i) => Err(RenderError::InvalidSpan { index: i }),
        }
    }
}

proof fn lemma_span_total_prefix(events: Seq<HighlightEvent>, i: int)
    requires
        0 <= i <= events.len(),
    ensures
        span_total(events.take(i)) <= span_total(events),
    decreases events.len() - i,
{
    if i < events.len() {
        lemma_span_total_prefix(events, i + 1);
        assert(events.take(i + 1).drop_last() =~= events.take(i));
    } else {
        assert(events.take(i) =~= events);
    }
}

proof fn lemma_encoding_not_shorter(cs: Seq<char>)
    ensures
        cs.len() <= encode_utf8(cs).len(),
    decreases cs.len(),
{
    if cs.len() > 0 {
        lemma_encoding_not_shorter(cs.drop_first());
    }
}

proof fn lemma_failure_persists(text: Seq<char>, events: Seq<HighlightEvent>, k: int)
    requires
        0 <= k <= events.len(),
        run_events(text, events.take(k)) is Err,
    ensures
        run_events(text, events) == run_events(text, events.take(k)),
    decreases events.len() - k,
{
    if k < events.len() {
        assert(events.take(k + 1).drop_last() =~= events.take(k));
        lemma_failure_persists(text, events, k + 1);
    } else {
        assert(events.take(k) =~= events);
    }
}

/// Whether `events` lay out at most `LAYOUT_BUDGET` bytes.
fn within_budget(events: &Vec<HighlightEvent>) -> (r: bool)
    ensures
        r == (span_total(events@) <= LAYOUT_BUDGET),
{
    let mut total: usize = 0;
    let mut i: usize = 0;
    while i < events.len()
        invariant
            i <= events.len(),
            total == span_total(events@.take(i as int)),
            total <= LAYOUT_BUDGET,
        decreases events.len() - i,
    {
        proof {
            assert(events@.take(i as int + 1).drop_last() =~= events@.take(i as int));
        }
        let n: usize = match events[i] {
            HighlightEvent::Source { start, end } => if start <= end {
                end - start
            } else {
                0
            },
            _ => 0,
        };
        if n > LAYOUT_BUDGET - total {
            proof {
                lemma_span_total_prefix(events@, i as int + 1);
            }
            return false;
        }
        total = total + n;
        i = i + 1;
    }
    proof {
        assert(events@.take(i as int) =~= events@);
    }
    true
}

/// Bytes `start..end` of `text`, where they are a run of whole characters.
fn source_span<'a>(text: &'a str, start: usize, end: usize) -> (r: Option<&'a str>)
    ensures
        match r {
            Some(s) => span_chars(text@, start as int, end as int) == Some(s@) && s@.len() <= end
                - start,
            None => span_chars(text@, start as int, end as int) is None,
        },
{
    if start <= end && text.is_char_boundary(start) && text.is_char_boundary(end) {
        let ghost bytes = text.spec_bytes();
        let (_, rest) = text.split_at(start);
        proof {
            let tail = bytes.subrange(start as int, bytes.len() as int);
            valid_utf8_split(bytes, start as int);
            assert(rest.spec_bytes() =~= tail);
            if end as int == bytes.len() {
                is_char_boundary_start_end_of_seq(tail);
            } else {
                is_char_boundary_iff_not_is_continuation_byte(bytes, end as int);
                is_char_boundary_iff_not_is_continuation_byte(tail, end - start);
                assert(tail[end - start] == bytes[end as int]);
            }
        }
        let (span, _) = rest.split_at(end - start);
        proof {
            assert(span.spec_bytes() =~= bytes.subrange(start as int, end as int));
            lemma_encoding_not_shorter(span@);
            encode_utf8_decode_utf8(span@);
            assert(span@ == decode_utf8(bytes.subrange(start as int, end as int)));
        }
        Some(span)
    } else {
        None
    }
}

/// Lays out the characters of `span` from the cursor `(line, column)` in
/// `color`, appending a glyph to `draws` for each drawn character.
fn lay_out_span(
    span: &str,
    color: Rgb,
    line: &mut usize,
    column: &mut usize,
    draws: &mut Vec<DrawInstruction>,
    budget: Ghost<int>,
)
    requires
        *old(line) + *old(column) + 2 * span@.len() <= budget@,
        budget@ <= usize::MAX,
    ensures
        pen_after(Pen { line: *old(line) as int, column: *old(column) as int }, span@) == (Pen {
            line: *final(line) as int,
            column: *final(column) as int,
        }),
        final(draws)@ == old(draws)@ + glyphs(
            Pen { line: *old(line) as int, column: *old(column) as int },
            color,
            span@,
        ),
        *final(line) + *final(column) <= *old(line) + *old(column) + 2 * span@.len(),
{
    let ghost pen0 = Pen { line: *line as int, column: *column as int };
    let ghost draws0 = draws@;
    let ghost sum0 = *line + *column;
    for c in it: span.chars()
        invariant
            it.seq() == span@,
            pen_after(pen0, span@.take(it.index())) == (Pen {
                line: *line as int,
                column: *column as int,
            }),
            draws@ == draws0 + glyphs(pen0, color, span@.take(it.index())),
            *line + *column <= sum0 + 2 * it.index(),
            sum0 + 2 * span@.len() <= budget@,
            budget@ <= usize::MAX,
    {
        proof {
            assert(span@.take(it.index() + 1).drop_last() =~= span@.take(it.index()));
        }
        if c == '\n' {
            *line = *line + 1;
            *column = LEFT_MARGIN;
        } else if c == '\t' {
            *column = *column + TAB_ADVANCE;
        } else if c == ' ' {
            *column = *column + 1;
        } else if char_is_drawn(c) {
            draws.push(DrawInstruction { ch: c, line: *line, column: *column, color });
            *column = *column + 1;
        }
    }
    proof {
        assert(span@.take(span@.len() as int) =~= span@);
    }
}

/// Folds `events` over `text` into the glyphs to draw, in order: a span
/// lays out its characters in the current colour, a category start changes
/// the colour. Fails on the first span that is not a run of whole
/// characters of `text`, and on spans too long to lay out.
pub fn interpret(text: &str, events: &Vec<HighlightEvent>) -> (r: Result<
    Vec<DrawInstruction>,
    RenderError,
>)
    ensures
        match r {
            Ok(draws) => interpretation(text@, events@) == Ok::<_, RenderError>(draws@),
            Err(e) => interpretation(text@, events@) == Err::<Seq<DrawInstruction>, _>(e),
        },
{
    if !within_budget(events) {
        return Err(RenderError::TooLong);
    }
    let mut line: usize = 0;
    let mut column: usize = LEFT_MARGIN;
    let mut style: usize = 0;
    let mut color = default_color();
    let mut draws: Vec<DrawInstruction> = Vec::new();
    let mut i: usize = 0;
    while i < events.len()
        invariant
            i <= events.len(),
            span_total(events@) <= LAYOUT_BUDGET,
            run_events(text@, events@.take(i as int)) == Ok::<_, usize>(
                Pass {
                    pen: Pen { line: line as int, column: column as int },
                    style,
                    color,
                    draws: draws@,
                },
            ),
            line + column <= 1 + 2 * span_total(events@.take(i as int)),
        decreases events.len() - i,
    {
        proof {
            assert(events@.take(i as int + 1).drop_last() =~= events@.take(i as int));
            lemma_span_total_prefix(events@, i as int + 1);
        }
        match events[i] {
            HighlightEvent::Source { start, end } => match source_span(text, start, end) {
                Some(span) => {
                    let ghost budget = (1 + 2 * span_total(events@.take(i as int + 1))) as int;
                    lay_out_span(
                        span,
                        color,
                        &mut line,
                        &mut column,
                        &mut draws,
                        Ghost(budget),
                    );
                },
                None => {
                    proof {
                        lemma_failure_persists(text@, events@, i as int + 1);
                    }
                    return Err(RenderError::InvalidSpan { index: i });
                },
            },
            HighlightEvent::HighlightStart(s) => {
                if s != style {
                    style = s;
                    match resolve(s) {
                        Some(c) => {
                            color = c;
                        },
                        None => {},
                    }
                }
            },
            HighlightEvent::HighlightEnd => {},
        }
        i = i + 1;
    }
    proof {
        assert(events@.take(i as int) =~= events@);
    }
    Ok(draws)
}

/// Interpreting one text and one event stream twice yields the same glyph
/// sequence, or the same error: the result depends on nothing else.
pub proof fn lemma_interpret_repeatable(
    text: Seq<char>,
    events: Seq<HighlightEvent>,
    first: Result<Seq<DrawInstruction>, RenderError>,
    second: Result<Seq<DrawInstruction>, RenderError>,
)
    requires
        first == interpretation(text, events),
        second == interpretation(text, events),
    ensures
        first == second,
{
}

/// The categories without a colour that `events` start, in order.
pub open spec fn unstyled(events: Seq<HighlightEvent>) -> Seq<usize>
    decreases events.len(),
{
    if events.len() == 0 {
        seq![]
    } else {
        let before = unstyled(events.drop_last());
        match events.last() {
            HighlightEvent::HighlightStart(s) => if category_color(s as int) is None {
                before.push(s)
            } else {
                before
            },
            _ => before,
        }
    }
}

/// The categories without a colour that `events` start, in order, for the
/// caller to report; the pass keeps its colour across them.
pub fn unstyled_categories(events: &Vec<HighlightEvent>) -> (r: Vec<usize>)
    ensures
        r@ == unstyled(events@),
{
    let mut r: Vec<usize> = Vec::new();
    let mut i: usize = 0;
    while i < events.len()
        invariant
            i <= events.len(),
            r@ == unstyled(events@.take(i as int)),
        decreases events.len() - i,
    {
        proof {
            assert(events@.take(i as int + 1).drop_last() =~= events@.take(i as int));
        }
        match events[i] {
            HighlightEvent::HighlightStart(s) => {
                if resolve(s).is_none() {
                    r.push(s);
                }
            },
            _ => {},
        }
        i = i + 1;
    }
    proof {
        assert(events@.take(i as int) =~= events@);
    }
    r
}

/// The characters that the valid spans of `events` feed to the layout, in
/// order.
pub open spec fn fed(text: Seq<char>, events: Seq<HighlightEvent>) -> Seq<char>
    decreases events.len(),
{
    if events.len() == 0 {
        seq![]
    } else {
        match events.last() {
            HighlightEvent::Source { start, end } => match span_chars(
                text,
                start as int,
                end as int,
            ) {
                Some(cs) => fed(text, events.drop_last()) + cs,
                None => fed(text, events.drop_last()),
            },
            _ => fed(text, events.drop_last()),
        }
    }
}

proof fn lemma_run_events_layout(text: Seq<char>, events: Seq<HighlightEvent>)
    requires
        run_events(text, events) is Ok,
    ensures
        run_events(text, events)->Ok_0.pen == pen_after(start_pen(), fed(text, events)),
        places(run_events(text, events)->Ok_0.draws) == places(
            glyphs(start_pen(), default_foreground(), fed(text, events)),
        ),
    decreases events.len(),
{
    if events.len() == 0 {
        assert(places(seq![]) =~= places(glyphs(start_pen(), default_foreground(), seq![])));
    } else {
        let prefix = events.drop_last();
        lemma_run_events_layout(text, prefix);
        let p = run_events(text, prefix)->Ok_0;
        let before = fed(text, prefix);
        match events.last() {
            HighlightEvent::Source { start, end } => {
                let cs = span_chars(text, start as int, end as int)->Some_0;
                lemma_pen_after_concat(start_pen(), before, cs);
                lemma_places_concat(
                    start_pen(),
                    default_foreground(),
                    p.color,
                    default_foreground(),
                    before,
                    cs,
                );
                let added = glyphs(p.pen, p.color, cs);
                assert(places(p.draws + added) =~= places(p.draws) + places(added));
            },
            _ => {},
        }
    }
}

/// Whatever the event stream, the glyphs of a pass land where laying out the
/// characters that its spans feed puts them, in order; so they carry exactly
/// the numbers of the lines of those characters that hold a drawn character.
pub proof fn lemma_interpretation_layout(text: Seq<char>, events: Seq<HighlightEvent>)
    requires
        interpretation(text, events) is Ok,
    ensures
        places(interpretation(text, events)->Ok_0) == places(
            glyphs(start_pen(), default_foreground(), fed(text, events)),
        ),
        fed(text, events).len() <= usize::MAX ==> glyph_lines(interpretation(text, events)->Ok_0)
            == drawn_lines(fed(text, events)),
{
    lemma_run_events_layout(text, events);
    let cs = fed(text, events);
    let ds = interpretation(text, events)->Ok_0;
    if cs.len() <= usize::MAX {
        lemma_lines_of_places(ds, glyphs(start_pen(), default_foreground(), cs));
        lemma_lines_with_glyphs(cs, default_foreground());
    }
}

proof fn lemma_glyphs_colour(pen: Pen, color: Rgb, cs: Seq<char>)
    ensures
        forall|k: int|
            0 <= k < glyphs(pen, color, cs).len() ==> (#[trigger] glyphs(pen, color, cs)[k]).color
                == color,
    decreases cs.len(),
{
    if cs.len() > 0 {
        lemma_glyphs_colour(pen, color, cs.drop_last());
        let before = glyphs(pen, color, cs.drop_last());
        assert forall|k: int| 0 <= k < glyphs(pen, color, cs).len() implies (#[trigger] glyphs(
            pen,
            color,
            cs,
        )[k]).color == color by {
            if k < before.len() {
                assert(glyphs(pen, color, cs)[k] == before[k]);
            }
        }
    }
}

/// Starting a category other than the active one sets the colour of the
/// glyphs that follow to that category's palette colour, and keeps the
/// colour in effect where the category has none; a span draws every glyph
/// it adds in the colour in effect.
pub proof fn lemma_category_colour(text: Seq<char>, p: Pass, e: HighlightEvent)
    requires
        apply_event(text, p, e) is Some,
    ensures
        ({
            let q = apply_event(text, p, e)->Some_0;
            &&& (e is HighlightStart && e->HighlightStart_0 != p.style) ==> {
                let s = e->HighlightStart_0;
                &&& q.style == s
                &&& category_color(s as int) is Some ==> q.color == category_color(
                    s as int,
                )->Some_0
                &&& category_color(s as int) is None ==> q.color == p.color
            }
            &&& (e is Source) ==> {
                &&& q.color == p.color
                &&& q.draws.subrange(0, p.draws.len() as int) == p.draws
                &&& forall|k: int|
                    p.draws.len() <= k < q.draws.len() ==> (#[trigger] q.draws[k]).color == p.color
            }
        }),
{
    let q = apply_event(text, p, e)->Some_0;
    if let HighlightEvent::Source { start, end } = e {
        let cs = span_chars(text, start as int, end as int)->Some_0;
        lemma_glyphs_colour(p.pen, p.color, cs);
        assert(q.draws.subrange(0, p.draws.len() as int) =~= p.draws);
        assert forall|k: int| p.draws.len() <= k < q.draws.len() implies (
        #[trigger] q.draws[k]).color == p.color by {
            assert(q.draws[k] == glyphs(p.pen, p.color, cs)[k - p.draws.len()]);
        }
    }
}

/// The colour that starting category `s` leaves, where `before` was in
/// effect.
pub open spec fn colour_after_start(s: usize, before: Rgb) -> Rgb {
    match category_color(s as int) {
        Some(c) => c,
        None => before,
    }
}

/// After a start of category `s` other than the active one, every glyph
/// that the following events draw, up to the next category start, has the
/// palette colour of `s`, or the colour in effect before where `s` has none;
/// the glyphs drawn before stay as they were.
pub proof fn lemma_run_colour(
    text: Seq<char>,
    before: Seq<HighlightEvent>,
    s: usize,
    run: Seq<HighlightEvent>,
)
    requires
        run_events(text, before) is Ok,
        s != run_events(text, before)->Ok_0.style,
        forall|j: int| 0 <= j < run.len() ==> !(#[trigger] run[j] is HighlightStart),
        run_events(text, before.push(HighlightEvent::HighlightStart(s)) + run) is Ok,
    ensures
        ({
            let p = run_events(text, before)->Ok_0;
            let q = run_events(text, before.push(HighlightEvent::HighlightStart(s)) + run)->Ok_0;
            let c = colour_after_start(s, p.color);
            &&& q.color == c
            &&& q.style == s
            &&& p.draws.len() <= q.draws.len()
            &&& q.draws.subrange(0, p.draws.len() as int) == p.draws
            &&& forall|k: int| p.draws.len() <= k < q.draws.len() ==> (#[trigger] q.draws[k]).color == c
        }),
    decreases run.len(),
{
    let start = before.push(HighlightEvent::HighlightStart(s));
    let p = run_events(text, before)->Ok_0;
    let c = colour_after_start(s, p.color);
    if run.len() == 0 {
        assert(start + run =~= start);
        assert(start.drop_last() =~= before);
        assert(run_events(text, start + run)->Ok_0.draws.subrange(0, p.draws.len() as int) =~= p.draws);
    } else {
        let shorter = run.drop_last();
        assert((start + run).drop_last() =~= start + shorter);
        assert((start + run).last() == run.last());
        assert forall|j: int| 0 <= j < shorter.len() implies !(#[trigger] shorter[j] is HighlightStart) by {
            assert(shorter[j] == run[j]);
        }
        assert(!(run[run.len() - 1] is HighlightStart));
        lemma_run_colour(text, before, s, shorter);
        let m = run_events(text, start + shorter)->Ok_0;
        let q = run_events(text, start + run)->Ok_0;
        lemma_category_colour(text, m, run.last());
        assert forall|k: int| p.draws.len() <= k < q.draws.len() implies (#[trigger] q.draws[k]).color == c by {
            if k < m.draws.len() {
                assert(q.draws.subrange(0, m.draws.len() as int)[k] == m.draws[k]);
            }
        }
        assert(q.draws.subrange(0, p.draws.len() as int) =~= p.draws) by {
            assert forall|k: int| 0 <= k < p.draws.len() implies q.draws[k] == p.draws[k] by {
                assert(q.draws.subrange(0, m.draws.len() as int)[k] == m.draws[k]);
                assert(m.draws.subrange(0, p.draws.len() as int)[k] == p.draws[k]);
            }
        }
    }
}

/// Where the spans of a successful pass feed exactly the text, the glyphs
/// carry the numbers of the text's lines that hold a drawn character, and no
/// others.
pub proof fn lemma_lines_of_covered_text(text: Seq<char>, events: Seq<HighlightEvent>)
    requires
        interpretation(text, events) is Ok,
        fed(text, events) == text,
        text.len() <= usize::MAX,
    ensures
        glyph_lines(interpretation(text, events)->Ok_0) == drawn_lines(text),
        glyph_lines(interpretation(text, events)->Ok_0).len() == drawn_lines(text).len(),
{
    lemma_interpretation_layout(text, events);
}

} // verus!
