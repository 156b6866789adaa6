//! The typing session: the practice text and its cached glyphs, the
//! transcript typed so far, and what each keystroke does to them.

use crate::highlight::{interpret, interpretation, HighlightEvent, RenderError};
use crate::layout::DrawInstruction;
use tree_sitter_highlight::{HighlightConfiguration, HighlightEvent as Event, Highlighter};
use tree_sitter_rust::{language, HIGHLIGHT_QUERY};
use vstd::prelude::*;

verus! {

/// The key that appends a line break to the transcript.
pub const KEY_NEWLINE: char = '\u{f028}';

/// The key that ends the session.
pub const KEY_QUIT: char = '\u{f029}';

/// The key that asks for another practice text.
pub const KEY_NEXT_TEXT: char = '\u{f02b}';

/// What a keystroke asks for.
#[derive(Clone, Copy, Debug, PartialEq, Eq, Structural)]
pub enum KeyAction {
    /// Append this character to the transcript.
    Append(char),
    /// End the session.
    Quit,
    /// Replace the practice text.
    NextText,
    /// A key with no meaning here; it changes nothing.
    Unrecognized(char),
}

/// Why the session stopped.
#[derive(Clone, Copy, Debug, PartialEq, Eq, Structural)]
pub enum SessionError {
    /// The highlighter failed on the practice text.
    Highlighting,
    /// The highlight events do not fit the practice text.
    Render(RenderError),
    /// No candidate file could be read.
    NoReadableCandidate,
}

/// What key `c` asks for: an ASCII character is typed, a line break, quit
/// and next text have their own keys, and any other key means nothing.
pub open spec fn key_action(c: char) -> KeyAction {
    if (c as u32) < 0x80 {
        KeyAction::Append(c)
    } else if c == KEY_NEWLINE {
        KeyAction::Append('\n')
    } else if c == KEY_QUIT {
        KeyAction::Quit
    } else if c == KEY_NEXT_TEXT {
        KeyAction::NextText
    } else {
        KeyAction::Unrecognized(c)
    }
}

/// What key `c` asks for.
pub fn classify_key(c: char) -> (a: KeyAction)
    ensures
        a == key_action(c),
{
    if (c as u32) < 0x80 {
        KeyAction::Append(c)
    } else if c == KEY_NEWLINE {
        KeyAction::Append('\n')
    } else if c == KEY_QUIT {
        KeyAction::Quit
    } else if c == KEY_NEXT_TEXT {
        KeyAction::NextText
    } else {
        KeyAction::Unrecognized(c)
    }
}

/// The text that stands in when no practice file could be read.
pub const PLACEHOLDER_TEXT: &'static str = "Please press TAB!";

/// The names of the lexical categories, in the order of their indices.
pub open spec fn category_list() -> Seq<&'static str> {
    seq![
        "attribute",
        "comment",
        "constant.builtin",
        "constant",
        "embedded",
        "function.builtin",
        "function",
        "keyword",
        "number",
        "module",
        "operator",
        "punctuation.bracket",
        "punctuation.delimiter",
        "string.special",
        "string",
        "tag",
        "type",
        "type.builtin",
        "variable.builtin",
        "variable.parameter",
    ]
}

/// The names of the lexical categories, in the order of their indices.
fn category_names() -> (names: Vec<&'static str>)
    ensures
        names@ == category_list(),
{
    vec![
        "attribute",
        "comment",
        "constant.builtin",
        "constant",
        "embedded",
        "function.builtin",
        "function",
        "keyword",
        "number",
        "module",
        "operator",
        "punctuation.bracket",
        "punctuation.delimiter",
        "string.special",
        "string",
        "tag",
        "type",
        "type.builtin",
        "variable.builtin",
        "variable.parameter",
    ]
}

/// The events that a fresh highlighter yields for `text` under the
/// tree-sitter-rust grammar and highlight query, with category `i` standing
/// for `names[i]`; `None` where the query does not compile or the
/// highlighter reports an error.
pub uninterp spec fn rust_highlights(names: Seq<&'static str>, text: Seq<char>) -> Option<
    Seq<HighlightEvent>,
>;

/// Relies on HighlightConfiguration::new, HighlightConfiguration::configure
/// and Highlighter::highlight: a fresh highlighter and a fresh Rust
/// configuration for `names`, run over `text`'s bytes without cancellation
/// flag or injections, so the events depend on `names` and `text` alone.
#[verifier::external_body]
fn highlight_events(names: &Vec<&'static str>, text: &str) -> (r: Option<Vec<HighlightEvent>>)
    ensures
        match r {
            Some(v) => rust_highlights(names@, text@) == Some(v@),
            None => rust_highlights(names@, text@) is None,
        },
{
    let mut config = HighlightConfiguration::new(language(), HIGHLIGHT_QUERY, "", "").ok()?;
    config.configure(names);
    let mut highlighter = Highlighter::new();
    let events = highlighter.highlight(&config, text.as_bytes(), None, |_| None).ok()?;
    events.map(|e| e.map(|e| match e {
        Event::Source { start, end } => HighlightEvent::Source { start, end },
        Event::HighlightStart(h) => HighlightEvent::HighlightStart(h.0),
        Event::HighlightEnd => HighlightEvent::HighlightEnd,
    })).collect::<Result<Vec<_>, _>>().ok()
}

/// What highlighting `text` yields: its glyphs, or why it fails.
pub open spec fn highlight_outcome(text: Seq<char>) -> Result<Seq<DrawInstruction>, SessionError> {
    match rust_highlights(category_list(), text) {
        None => Err(SessionError::Highlighting),
        Some(events) => match interpretation(text, events) {
            Ok(draws) => Ok(draws),
            Err(e) => Err(SessionError::Render(e)),
        },
    }
}

/// The result that highlighting `text` reports.
pub open spec fn highlight_result(text: Seq<char>) -> Result<(), SessionError> {
    match highlight_outcome(text) {
        Ok(_) => Ok(()),
        Err(e) => Err(e),
    }
}

/// `line` without the carriage return it ends with, if any.
pub open spec fn without_cr(line: Seq<char>) -> Seq<char> {
    if line.len() > 0 && line.last() == '\r' {
        line.drop_last()
    } else {
        line
    }
}

/// The pieces of `s` between line breaks, the last one included even where
/// it is empty; a line break is `\n` or `\r\n`.
pub open spec fn pieces(s: Seq<char>) -> Seq<Seq<char>>
    decreases s.len(),
{
    if s.len() == 0 {
        seq![Seq::<char>::empty()]
    } else {
        let p = pieces(s.drop_last());
        if s.last() == '\n' {
            p.update(p.len() - 1, without_cr(p.last())).push(Seq::<char>::empty())
        } else {
            p.update(p.len() - 1, p.last().push(s.last()))
        }
    }
}

/// The lines of `s`: its pieces between line breaks, where a line break at
/// the very end opens no further line.
pub open spec fn lines_of(s: Seq<char>) -> Seq<Seq<char>> {
    let p = pieces(s);
    if p.last().len() == 0 {
        p.drop_last()
    } else {
        p
    }
}

/// The characters of each of `v`'s lines.
pub open spec fn line_views(v: Seq<Vec<char>>) -> Seq<Seq<char>> {
    v.map_values(|x: Vec<char>| x@)
}

proof fn lemma_pieces_nonempty(s: Seq<char>)
    ensures
        pieces(s).len() >= 1,
    decreases s.len(),
{
    if s.len() > 0 {
        lemma_pieces_nonempty(s.drop_last());
    }
}

/// A typing session over one practice text at a time.
pub struct Game {
    text_to_type: String,
    highlights_orig: Vec<HighlightEvent>,
    draws: Vec<DrawInstruction>,
    text_typed: Vec<char>,
    is_running: bool,
}

impl Game {
    /// The practice text.
    pub closed spec fn practice(&self) -> Seq<char> {
        self.text_to_type@
    }

    /// The highlight events of the practice text.
    pub closed spec fn events(&self) -> Seq<HighlightEvent> {
        self.highlights_orig@
    }

    /// The glyphs that draw the practice text.
    pub closed spec fn glyphs(&self) -> Seq<DrawInstruction> {
        self.draws@
    }

    /// The transcript typed so far.
    pub closed spec fn typed(&self) -> Seq<char> {
        self.text_typed@
    }

    /// Whether the session takes input.
    pub closed spec fn running(&self) -> bool {
        self.is_running
    }

    /// The events and glyphs are those that highlighting the practice text
    /// yields; where highlighting fails, there are none, and the session has
    /// stopped.
    pub open spec fn shows_practice(&self) -> bool {
        &&& match rust_highlights(category_list(), self.practice()) {
            Some(events) => self.events() == events,
            None => self.events() == Seq::<HighlightEvent>::empty(),
        }
        &&& match highlight_outcome(self.practice()) {
            Ok(draws) => self.glyphs() == draws,
            Err(_) => self.glyphs() == Seq::<DrawInstruction>::empty() && !self.running(),
        }
    }

    /// A running session draws its practice text with the highlighter's
    /// events of that text.
    pub open spec fn wf(&self) -> bool {
        self.running() ==> self.shows_practice()
    }

    /// Starts a session on `text`, or on the placeholder text where no
    /// candidate could be read, with an empty transcript and the
    /// highlighter's events of that text. It runs unless highlighting fails.
    pub fn new(text: Option<String>) -> (r: Result<Game, SessionError>)
        ensures
            ({
                let t = match text {
                    Some(t) => t@,
                    None => PLACEHOLDER_TEXT@,
                };
                &&& (r is Ok <==> highlight_outcome(t) is Ok)
                &&& (r is Err ==> r == Err::<Game, _>(highlight_result(t)->Err_0))
                &&& (r is Ok ==> {
                    let g = r->Ok_0;
                    &&& g.practice() == t
                    &&& g.typed() == Seq::<char>::empty()
                    &&& g.running()
                    &&& g.shows_practice()
                    &&& g.wf()
                })
            }),
    {
        let text = match text {
            Some(t) => t,
            None => PLACEHOLDER_TEXT.to_owned(),
        };
        let mut game = Game {
            text_to_type: text,
            highlights_orig: Vec::new(),
            draws: Vec::new(),
            text_typed: Vec::new(),
            is_running: true,
        };
        match game.update_highlighting() {
            Ok(()) => Ok(game),
            Err(e) => Err(e),
        }
    }

    /// Asks the highlighter for the events of the practice text and lays
    /// them out. On failure the session stops and shows nothing.
    pub fn update_highlighting(&mut self) -> (r: Result<(), SessionError>)
        ensures
            final(self).practice() == old(self).practice(),
            final(self).typed() == old(self).typed(),
            r == highlight_result(old(self).practice()),
            r is Ok ==> final(self).running() == old(self).running(),
            r is Err ==> !final(self).running(),
            final(self).shows_practice(),
            final(self).wf(),
    {
        let names = category_names();
        let events = match highlight_events(&names, self.text_to_type.as_str()) {
            Some(ev) => ev,
            None => {
                self.is_running = false;
                self.highlights_orig = Vec::new();
                self.draws = Vec::new();
                return Err(SessionError::Highlighting);
            },
        };
        let result = interpret(self.text_to_type.as_str(), &events);
        self.highlights_orig = events;
        match result {
            Ok(draws) => {
                self.draws = draws;
                Ok(())
            },
            Err(e) => {
                self.is_running = false;
                self.draws = Vec::new();
                Err(SessionError::Render(e))
            },
        }
    }

    /// Handles one keystroke of a running session: a typed character or
    /// line break is appended to the transcript, quit stops the session, and
    /// the rest leave it as it is. A stopped session takes no input. Returns
    /// what the key asked for; `NextText` is for the caller to carry out
    /// with `next_text`.
    pub fn update(&mut self, key: char) -> (a: KeyAction)
        requires
            old(self).wf(),
        ensures
            a == key_action(key),
            final(self).wf(),
            final(self).practice() == old(self).practice(),
            final(self).events() == old(self).events(),
            final(self).glyphs() == old(self).glyphs(),
            !old(self).running() ==> {
                &&& final(self).typed() == old(self).typed()
                &&& !final(self).running()
            },
            old(self).running() ==> match key_action(key) {
                KeyAction::Append(c) => final(self).typed() == old(self).typed().push(c)
                    && final(self).running(),
                KeyAction::Quit => final(self).typed() == old(self).typed() && !final(self).running(),
                _ => final(self).typed() == old(self).typed() && final(self).running(),
            },
    {
        let action = classify_key(key);
        if self.is_running {
            match action {
                KeyAction::Append(c) => {
                    self.text_typed.push(c);
                },
                KeyAction::Quit => {
                    self.is_running = false;
                },
                _ => {},
            }
        }
        action
    }

    /// Replaces the practice text with `text`, empties the transcript and
    /// highlights the new text. `None` means that no candidate could be
    /// read: the session stops and keeps everything else as it was.
    pub fn next_text(&mut self, text: Option<String>) -> (r: Result<(), SessionError>)
        requires
            old(self).wf(),
        ensures
            final(self).wf(),
            match text {
                None => {
                    &&& r == Err::<(), _>(SessionError::NoReadableCandidate)
                    &&& !final(self).running()
                    &&& final(self).practice() == old(self).practice()
                    &&& final(self).typed() == old(self).typed()
                    &&& final(self).events() == old(self).events()
                    &&& final(self).glyphs() == old(self).glyphs()
                },
                Some(t) => {
                    &&& final(self).practice() == t@
                    &&& final(self).typed() == Seq::<char>::empty()
                    &&& r == highlight_result(t@)
                    &&& (r is Ok ==> final(self).running() == old(self).running())
                    &&& (r is Err ==> !final(self).running())
                    &&& final(self).shows_practice()
                },
            },
    {
        match text {
            None => {
                self.is_running = false;
                Err(SessionError::NoReadableCandidate)
            },
            Some(t) => {
                self.text_to_type = t;
                self.text_typed = Vec::new();
                self.update_highlighting()
            },
        }
    }

    /// The transcript cut into lines, as it is drawn: one line per line
    /// break (`\n` or `\r\n`), and none for a break at the very end.
    pub fn transcript_lines(&self) -> (r: Vec<Vec<char>>)
        ensures
            line_views(r@) == lines_of(self.typed()),
    {
        let typed = &self.text_typed;
        let mut done: Vec<Vec<char>> = Vec::new();
        let mut current: Vec<char> = Vec::new();
        let mut i: usize = 0;
        while i < typed.len()
            invariant
                i <= typed.len(),
                line_views(done@).push(current@) == pieces(typed@.take(i as int)),
            decreases typed.len() - i,
        {
            proof {
                assert(typed@.take(i as int + 1).drop_last() =~= typed@.take(i as int));
                lemma_pieces_nonempty(typed@.take(i as int));
            }
            let c = typed[i];
            if c == '\n' {
                let ghost before = line_views(done@);
                let ghost line = current@;
                let n = current.len();
                if n > 0 && current[n - 1] == '\r' {
                    current.pop();
                }
                proof {
                    assert(current@ =~= without_cr(line));
                }
                let ghost stripped = current@;
                done.push(current);
                current = Vec::new();
                proof {
                    assert(line_views(done@) =~= before.push(stripped));
                    assert(line_views(done@).push(current@) =~= before.push(line).update(
                        before.len() as int,
                        without_cr(line),
                    ).push(Seq::<char>::empty()));
                }
            } else {
                let ghost before = line_views(done@);
                let ghost line = current@;
                current.push(c);
                proof {
                    assert(line_views(done@).push(current@) =~= before.push(line).update(
                        before.len() as int,
                        line.push(c),
                    ));
                }
            }
            i = i + 1;
        }
        proof {
            assert(typed@.take(i as int) =~= typed@);
        }
        if current.len() > 0 {
            let ghost before = line_views(done@);
            done.push(current);
            proof {
                assert(line_views(done@) =~= before.push(current@));
            }
        } else {
            proof {
                assert(line_views(done@) =~= line_views(done@).push(current@).drop_last());
            }
        }
        done
    }

    /// Whether the session takes input.
    pub fn is_running(&self) -> (r: bool)
        ensures
            r == self.running(),
    {
        self.is_running
    }

    /// The practice text.
    pub fn text_to_type(&self) -> (r: &String)
        ensures
            r@ == self.practice(),
    {
        &self.text_to_type
    }

    /// The highlight events of the practice text.
    pub fn highlight_events(&self) -> (r: &Vec<HighlightEvent>)
        ensures
            r@ == self.events(),
    {
        &self.highlights_orig
    }

    /// The glyphs that draw the practice text.
    pub fn glyphs_to_draw(&self) -> (r: &Vec<DrawInstruction>)
        ensures
            r@ == self.glyphs(),
    {
        &self.draws
    }

    /// The transcript typed so far.
    pub fn text_typed(&self) -> (r: &Vec<char>)
        ensures
            r@ == self.typed(),
    {
        &self.text_typed
    }
}

} // verus!
