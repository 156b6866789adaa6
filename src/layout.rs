//! The layout cursor: where each character of a text lands, measured in
//! glyph advances (columns) and line numbers.

use crate::palette::Rgb;
use vstd::prelude::*;

verus! {

/// The column of a line's first glyph: one advance in from the left edge.
pub const LEFT_MARGIN: usize = 1;

/// The advances that a tab moves the cursor by.
pub const TAB_ADVANCE: usize = 2;

/// A control character: general category Cc.
pub open spec fn is_control(c: char) -> bool {
    (c as u32) <= 0x1f || (0x7f <= (c as u32) && (c as u32) <= 0x9f)
}

/// A character with the Unicode White_Space property.
pub open spec fn is_whitespace(c: char) -> bool {
    let u = c as u32;
    (0x09 <= u && u <= 0x0d) || u == 0x20 || u == 0x85 || u == 0xa0 || u == 0x1680
        || (0x2000 <= u && u <= 0x200a) || u == 0x2028 || u == 0x2029 || u == 0x202f
        || u == 0x205f || u == 0x3000
}

/// A character that leaves a glyph on screen.
pub open spec fn is_drawn(c: char) -> bool {
    !is_control(c) && !is_whitespace(c)
}

/// Whether `c` is a control character (general category Cc).
pub fn char_is_control(c: char) -> (r: bool)
    ensures
        r == is_control(c),
{
    let u = c as u32;
    u <= 0x1f || (0x7f <= u && u <= 0x9f)
}

/// Whether `c` has the Unicode White_Space property.
pub fn char_is_whitespace(c: char) -> (r: bool)
    ensures
        r == is_whitespace(c),
{
    let u = c as u32;
    (0x09 <= u && u <= 0x0d) || u == 0x20 || u == 0x85 || u == 0xa0 || u == 0x1680
        || (0x2000 <= u && u <= 0x200a) || u == 0x2028 || u == 0x2029 || u == 0x202f
        || u == 0x205f || u == 0x3000
}

/// Whether `c` leaves a glyph on screen.
pub fn char_is_drawn(c: char) -> (r: bool)
    ensures
        r == is_drawn(c),
{
    !char_is_control(c) && !char_is_whitespace(c)
}

/// One glyph to put on screen: its character, line, column and colour.
#[derive(Clone, Copy, Debug, PartialEq, Eq, Structural)]
pub struct DrawInstruction {
    pub ch: char,
    pub line: usize,
    pub column: usize,
    pub color: Rgb,
}

/// The cursor of a layout pass, unbounded.
pub struct Pen {
    pub line: int,
    pub column: int,
}

/// The cursor at the start of a pass.
pub open spec fn start_pen() -> Pen {
    Pen { line: 0, column: LEFT_MARGIN as int }
}

/// The cursor after character `c`: a newline opens the next line at the
/// margin, a tab moves two advances, a space or a drawn glyph one, and any
/// other control or whitespace character none.
pub open spec fn advance(pen: Pen, c: char) -> Pen {
    if c == '\n' {
        Pen { line: pen.line + 1, column: LEFT_MARGIN as int }
    } else if c == '\t' {
        Pen { line: pen.line, column: pen.column + TAB_ADVANCE }
    } else if c == ' ' || is_drawn(c) {
        Pen { line: pen.line, column: pen.column + 1 }
    } else {
        pen
    }
}

/// The cursor after the characters `cs`, starting at `pen`.
pub open spec fn pen_after(pen: Pen, cs: Seq<char>) -> Pen
    decreases cs.len(),
{
    if cs.len() == 0 {
        pen
    } else {
        advance(pen_after(pen, cs.drop_last()), cs.last())
    }
}

/// The glyph for `c` drawn at `pen`.
pub open spec fn glyph(pen: Pen, c: char, color: Rgb) -> DrawInstruction {
    DrawInstruction { ch: c, line: pen.line as usize, column: pen.column as usize, color }
}

/// The glyphs that the characters `cs` leave, in order, starting at `pen`
/// and drawn in `color`: one for each drawn character, none for the rest.
pub open spec fn glyphs(pen: Pen, color: Rgb, cs: Seq<char>) -> Seq<DrawInstruction>
    decreases cs.len(),
{
    if cs.len() == 0 {
        seq![]
    } else {
        let before = glyphs(pen, color, cs.drop_last());
        if is_drawn(cs.last()) {
            before.push(glyph(pen_after(pen, cs.drop_last()), cs.last(), color))
        } else {
            before
        }
    }
}

/// The line breaks in `cs`.
pub open spec fn line_breaks(cs: Seq<char>) -> int
    decreases cs.len(),
{
    if cs.len() == 0 {
        0
    } else {
        line_breaks(cs.drop_last()) + if cs.last() == '\n' {
            1int
        } else {
            0int
        }
    }
}

/// The spaces and drawn characters after the last line break of `cs`.
pub open spec fn cells_since_break(cs: Seq<char>) -> int
    decreases cs.len(),
{
    if cs.len() == 0 {
        0
    } else if cs.last() == '\n' {
        0
    } else if cs.last() == ' ' || is_drawn(cs.last()) {
        cells_since_break(cs.drop_last()) + 1
    } else {
        cells_since_break(cs.drop_last())
    }
}

/// Whether `cs` holds no tab.
pub open spec fn tab_free(cs: Seq<char>) -> bool {
    forall|j: int| 0 <= j < cs.len() ==> cs[j] != '\t'
}

/// The line numbers that the glyphs `ds` carry.
pub open spec fn glyph_lines(ds: Seq<DrawInstruction>) -> Set<int> {
    Set::new(|l: int| exists|k: int| 0 <= k < ds.len() && ds[k].line as int == l)
}

/// The numbers of the lines of `cs` that hold a drawn character.
pub open spec fn drawn_lines(cs: Seq<char>) -> Set<int> {
    Set::new(
        |l: int| exists|i: int| 0 <= i < cs.len() && is_drawn(cs[i]) && line_breaks(cs.take(i)) == l,
    )
}

proof fn lemma_pen_line(cs: Seq<char>)
    ensures
        pen_after(start_pen(), cs).line == line_breaks(cs),
        0 <= line_breaks(cs) <= cs.len(),
    decreases cs.len(),
{
    if cs.len() > 0 {
        lemma_pen_line(cs.drop_last());
    }
}

proof fn lemma_pen_without_tabs(cs: Seq<char>)
    requires
        tab_free(cs),
    ensures
        pen_after(start_pen(), cs) == (Pen {
            line: line_breaks(cs),
            column: LEFT_MARGIN + cells_since_break(cs),
        }),
    decreases cs.len(),
{
    if cs.len() > 0 {
        let p = cs.drop_last();
        assert(tab_free(p)) by {
            assert forall|j: int| 0 <= j < p.len() implies p[j] != '\t' by {
                assert(p[j] == cs[j]);
            }
        }
        lemma_pen_without_tabs(p);
    }
}

/// In a text without tabs, the glyph of a drawn character lands on the line
/// numbered by the line breaks before it, `LEFT_MARGIN` plus one advance per
/// space or drawn character before it on that line.
pub proof fn lemma_columns_without_tabs(cs: Seq<char>, color: Rgb, i: int)
    requires
        0 <= i < cs.len(),
        is_drawn(cs[i]),
        tab_free(cs.take(i)),
    ensures
        glyphs(start_pen(), color, cs.take(i + 1)) == glyphs(start_pen(), color, cs.take(i)).push(
            glyph(
                Pen { line: line_breaks(cs.take(i)), column: LEFT_MARGIN + cells_since_break(cs.take(i)) },
                cs[i],
                color,
            ),
        ),
{
    assert(cs.take(i + 1).drop_last() =~= cs.take(i));
    lemma_pen_without_tabs(cs.take(i));
}

/// The glyphs of a text carry exactly the numbers of the lines that hold a
/// drawn character, so there are as many distinct line numbers among them as
/// there are such lines.
pub proof fn lemma_lines_with_glyphs(cs: Seq<char>, color: Rgb)
    requires
        cs.len() <= usize::MAX,
    ensures
        glyph_lines(glyphs(start_pen(), color, cs)) == drawn_lines(cs),
        glyph_lines(glyphs(start_pen(), color, cs)).len() == drawn_lines(cs).len(),
    decreases cs.len(),
{
    let g = glyphs(start_pen(), color, cs);
    if cs.len() == 0 {
        assert(glyph_lines(g) =~= drawn_lines(cs));
    } else {
        let n = cs.len() - 1;
        let p = cs.drop_last();
        let gp = glyphs(start_pen(), color, p);
        lemma_lines_with_glyphs(p, color);
        lemma_pen_line(p);
        assert(cs.take(n) =~= p);
        assert forall|l: int| glyph_lines(g).contains(l) implies drawn_lines(cs).contains(l) by {
            let k = choose|k: int| 0 <= k < g.len() && g[k].line as int == l;
            if k < gp.len() {
                assert(g[k] == gp[k]);
                assert(glyph_lines(gp).contains(l));
                assert(drawn_lines(p).contains(l));
                let i = choose|i: int|
                    0 <= i < p.len() && is_drawn(p[i]) && line_breaks(p.take(i)) == l;
                assert(p.take(i) =~= cs.take(i));
                assert(cs[i] == p[i]);
            } else {
                assert(is_drawn(cs[n]) && line_breaks(cs.take(n)) == l);
            }
        }
        assert forall|l: int| drawn_lines(cs).contains(l) implies glyph_lines(g).contains(l) by {
            let i = choose|i: int|
                0 <= i < cs.len() && is_drawn(cs[i]) && line_breaks(cs.take(i)) == l;
            if i < n {
                assert(p.take(i) =~= cs.take(i));
                assert(p[i] == cs[i]);
                assert(drawn_lines(p).contains(l));
                assert(glyph_lines(gp).contains(l));
                let k = choose|k: int| 0 <= k < gp.len() && gp[k].line as int == l;
                assert(g[k] == gp[k]);
            } else {
                assert(g[gp.len() as int].line as int == l);
            }
        }
        assert(glyph_lines(g) =~= drawn_lines(cs));
    }
}

/// Where the glyphs `ds` land and what they show, leaving colour aside.
pub open spec fn places(ds: Seq<DrawInstruction>) -> Seq<(char, usize, usize)> {
    ds.map_values(|d: DrawInstruction| (d.ch, d.line, d.column))
}

/// Laying out `a` then `b` ends where laying out `a + b` ends.
pub proof fn lemma_pen_after_concat(pen: Pen, a: Seq<char>, b: Seq<char>)
    ensures
        pen_after(pen, a + b) == pen_after(pen_after(pen, a), b),
    decreases b.len(),
{
    if b.len() > 0 {
        assert((a + b).drop_last() =~= a + b.drop_last());
        lemma_pen_after_concat(pen, a, b.drop_last());
    } else {
        assert(a + b =~= a);
    }
}

/// Laying out `a` in one colour then `b` in another puts the glyphs where
/// laying out `a + b` in a single colour does.
pub proof fn lemma_places_concat(pen: Pen, c1: Rgb, c2: Rgb, c: Rgb, a: Seq<char>, b: Seq<char>)
    ensures
        places(glyphs(pen, c, a + b)) == places(glyphs(pen, c1, a)) + places(
            glyphs(pen_after(pen, a), c2, b),
        ),
    decreases a.len() + b.len(),
{
    if b.len() > 0 {
        let ab = a + b;
        assert(ab.drop_last() =~= a + b.drop_last());
        assert(ab.last() == b.last());
        lemma_places_concat(pen, c1, c2, c, a, b.drop_last());
        lemma_pen_after_concat(pen, a, b.drop_last());
        let left = glyphs(pen, c, a + b.drop_last());
        let right = glyphs(pen_after(pen, a), c2, b.drop_last());
        if is_drawn(b.last()) {
            let g1 = glyph(pen_after(pen, a + b.drop_last()), b.last(), c);
            let g2 = glyph(pen_after(pen_after(pen, a), b.drop_last()), b.last(), c2);
            assert(places(left.push(g1)) =~= places(left).push((g1.ch, g1.line, g1.column)));
            assert(places(right.push(g2)) =~= places(right).push((g2.ch, g2.line, g2.column)));
            assert(places(glyphs(pen, c1, a)) + places(right).push((g2.ch, g2.line, g2.column))
                =~= (places(glyphs(pen, c1, a)) + places(right)).push((g2.ch, g2.line, g2.column)));
        }
    } else {
        assert(a + b =~= a);
        lemma_places_recolor(pen, c, c1, a);
        assert(places(glyphs(pen, c1, a)) + places(glyphs(pen_after(pen, a), c2, b)) =~= places(
            glyphs(pen, c1, a),
        ));
    }
}

/// The places of glyphs do not depend on their colour.
pub proof fn lemma_places_recolor(pen: Pen, c1: Rgb, c2: Rgb, cs: Seq<char>)
    ensures
        places(glyphs(pen, c1, cs)) == places(glyphs(pen, c2, cs)),
    decreases cs.len(),
{
    if cs.len() > 0 {
        lemma_places_recolor(pen, c1, c2, cs.drop_last());
        let g1 = glyphs(pen, c1, cs.drop_last());
        let g2 = glyphs(pen, c2, cs.drop_last());
        if is_drawn(cs.last()) {
            let p = pen_after(pen, cs.drop_last());
            assert(places(g1.push(glyph(p, cs.last(), c1))) =~= places(g1).push(
                (cs.last(), p.line as usize, p.column as usize),
            ));
            assert(places(g2.push(glyph(p, cs.last(), c2))) =~= places(g2).push(
                (cs.last(), p.line as usize, p.column as usize),
            ));
        }
    } else {
        assert(places(glyphs(pen, c1, cs)) =~= places(glyphs(pen, c2, cs)));
    }
}

/// Glyphs in the same places carry the same line numbers.
pub proof fn lemma_lines_of_places(ds: Seq<DrawInstruction>, es: Seq<DrawInstruction>)
    requires
        places(ds) == places(es),
    ensures
        glyph_lines(ds) == glyph_lines(es),
{
    assert(ds.len() == places(ds).len() && es.len() == places(es).len());
    assert forall|l: int| glyph_lines(ds).contains(l) implies glyph_lines(es).contains(l) by {
        let k = choose|k: int| 0 <= k < ds.len() && ds[k].line as int == l;
        assert(places(ds)[k] == places(es)[k]);
    }
    assert forall|l: int| glyph_lines(es).contains(l) implies glyph_lines(ds).contains(l) by {
        let k = choose|k: int| 0 <= k < es.len() && es[k].line as int == l;
        assert(places(ds)[k] == places(es)[k]);
    }
    assert(glyph_lines(ds) =~= glyph_lines(es));
}

} // verus!
