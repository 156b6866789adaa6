use typing_game::candidates::{check_path, is_hidden, is_rust_file, sample, Sampler, MAX_ATTEMPTS};
use typing_game::highlight::{
    default_color, interpret, unstyled_categories, HighlightEvent, RenderError,
};
use typing_game::layout::{char_is_control, char_is_drawn, char_is_whitespace, DrawInstruction};
use typing_game::palette::{color_from_xterm, resolve, xterm_hex, Rgb};
use typing_game::session::{
    classify_key, Game, KeyAction, SessionError, KEY_NEWLINE, KEY_NEXT_TEXT, KEY_QUIT,
};

fn rgb(r: u8, g: u8, b: u8) -> Rgb {
    Rgb { r, g, b }
}

fn src(start: usize, end: usize) -> HighlightEvent {
    HighlightEvent::Source { start, end }
}

#[test]
fn palette_entries_decode_their_hex_pairs() {
    assert_eq!(xterm_hex(0), 0x000000);
    assert_eq!(xterm_hex(124), 0xaf0000);
    assert_eq!(xterm_hex(255), 0xeeeeee);
    assert_eq!(color_from_xterm(26), rgb(0x00, 0x5f, 0xd7));
    assert_eq!(color_from_xterm(245), rgb(0x8a, 0x8a, 0x8a));
    assert_eq!(color_from_xterm(241), rgb(0x60, 0x60, 0x60));
    assert_eq!(color_from_xterm(7), rgb(0xc0, 0xc0, 0xc0));
}

#[test]
fn every_known_category_resolves() {
    let expected: [(usize, u32); 21] = [
        (0, 0xaf0000), (1, 0x8a8a8a), (2, 0x875f00), (3, 0x875f00), (4, 0xaf8700),
        (6, 0x005fd7), (7, 0x005fd7), (8, 0x5f00d7), (9, 0x875f00), (10, 0xaf8700),
        (11, 0xaf0000), (12, 0x4e4e4e), (13, 0x4e4e4e), (14, 0x4e4e4e), (15, 0x008787),
        (16, 0x008700), (17, 0x000087), (18, 0x005f5f), (19, 0x005f5f), (20, 0x005f5f),
        (21, 0x005f5f),
    ];
    for (category, code) in expected {
        let c = rgb((code >> 16) as u8, (code >> 8) as u8, code as u8);
        assert_eq!(resolve(category), Some(c), "category {category}");
    }
}

#[test]
fn unknown_categories_resolve_to_nothing() {
    assert_eq!(resolve(5), None);
    assert_eq!(resolve(22), None);
    assert_eq!(resolve(usize::MAX), None);
}

#[test]
fn character_classes() {
    assert!(char_is_control('\n'));
    assert!(char_is_control('\u{7f}'));
    assert!(!char_is_control(' '));
    assert!(char_is_whitespace('\u{a0}'));
    assert!(char_is_whitespace('\u{3000}'));
    assert!(!char_is_whitespace('x'));
    assert!(char_is_drawn('é'));
    assert!(!char_is_drawn('\r'));
    for c in ['\0', '\t', '\n', ' ', '\u{85}', '\u{2028}', 'a', '{', '\u{1f600}'] {
        assert_eq!(char_is_control(c), c.is_control());
        assert_eq!(char_is_whitespace(c), c.is_whitespace());
    }
}

#[test]
fn end_to_end_keyword_then_default() {
    let text = "fn main() {}\n";
    let events = vec![
        HighlightEvent::HighlightStart(7),
        src(0, 2),
        HighlightEvent::HighlightStart(0),
        src(2, 12),
        src(12, 13),
    ];
    let draws = interpret(text, &events).unwrap();
    let keyword = resolve(7).unwrap();
    let default = resolve(0).unwrap();
    let chars: String = draws.iter().map(|d| d.ch).collect();
    assert_eq!(chars, "fnmain(){}");
    assert_eq!(draws[0], DrawInstruction { ch: 'f', line: 0, column: 1, color: keyword });
    assert_eq!(draws[1], DrawInstruction { ch: 'n', line: 0, column: 2, color: keyword });
    assert_eq!(draws[2], DrawInstruction { ch: 'm', line: 0, column: 4, color: default });
    assert!(draws[2..].iter().all(|d| d.color == default && d.line == 0));
    assert_eq!(draws.last().unwrap().column, 12);
}

#[test]
fn span_past_the_end_is_refused() {
    let text = "fn main() {}\n";
    let events = vec![
        HighlightEvent::HighlightStart(7),
        src(0, 2),
        HighlightEvent::HighlightStart(0),
        src(2, 13),
        src(13, 14),
    ];
    assert_eq!(interpret(text, &events), Err(RenderError::InvalidSpan { index: 4 }));
}

#[test]
fn span_inside_a_character_is_refused() {
    assert_eq!(interpret("é", &vec![src(0, 1)]), Err(RenderError::InvalidSpan { index: 0 }));
    assert_eq!(interpret("ab", &vec![src(2, 1)]), Err(RenderError::InvalidSpan { index: 0 }));
    let draws = interpret("é", &vec![src(0, 2)]).unwrap();
    assert_eq!(draws, vec![DrawInstruction { ch: 'é', line: 0, column: 1, color: default_color() }]);
}

#[test]
fn oversized_spans_are_refused() {
    assert_eq!(interpret("", &vec![src(0, usize::MAX)]), Err(RenderError::TooLong));
}

#[test]
fn interpreting_twice_gives_the_same_glyphs() {
    let text = "let x = 1;\n\tfoo(x);\n";
    let events = vec![
        HighlightEvent::HighlightStart(7),
        src(0, 3),
        HighlightEvent::HighlightEnd,
        src(3, 12),
        HighlightEvent::HighlightStart(6),
        src(12, 15),
        HighlightEvent::HighlightEnd,
        src(15, text.len()),
    ];
    let first = interpret(text, &events);
    let second = interpret(text, &events);
    assert!(first.is_ok());
    assert_eq!(first, second);
}

#[test]
fn columns_count_spaces_and_glyphs() {
    let draws = interpret("ab c\n  d", &vec![src(0, 8)]).unwrap();
    let places: Vec<(char, usize, usize)> = draws.iter().map(|d| (d.ch, d.line, d.column)).collect();
    assert_eq!(places, vec![('a', 0, 1), ('b', 0, 2), ('c', 0, 4), ('d', 1, 3)]);
}

#[test]
fn a_tab_moves_two_advances() {
    let draws = interpret("\tx", &vec![src(0, 2)]).unwrap();
    assert_eq!(draws[0].column, 3);
}

#[test]
fn other_controls_neither_draw_nor_advance() {
    let draws = interpret("a\r\u{0}b", &vec![src(0, 4)]).unwrap();
    let places: Vec<(char, usize)> = draws.iter().map(|d| (d.ch, d.column)).collect();
    assert_eq!(places, vec![('a', 1), ('b', 2)]);
}

#[test]
fn only_lines_with_glyphs_get_line_numbers() {
    let text = "a\n\n  \n b\n";
    let draws = interpret(text, &vec![src(0, text.len())]).unwrap();
    let mut lines: Vec<usize> = draws.iter().map(|d| d.line).collect();
    lines.dedup();
    assert_eq!(lines, vec![0, 3]);
}

#[test]
fn repeated_or_unknown_category_keeps_the_colour() {
    let events = vec![
        HighlightEvent::HighlightStart(0),
        src(0, 1),
        HighlightEvent::HighlightStart(7),
        HighlightEvent::HighlightStart(5),
        src(1, 2),
        HighlightEvent::HighlightStart(99),
        src(2, 3),
    ];
    let draws = interpret("abc", &events).unwrap();
    assert_eq!(draws[0].color, rgb(178, 184, 194));
    assert_eq!(draws[1].color, resolve(7).unwrap());
    assert_eq!(draws[2].color, resolve(7).unwrap());
}

#[test]
fn candidate_names() {
    assert!(is_hidden(".git"));
    assert!(!is_hidden("main.rs"));
    assert!(is_rust_file("main.rs"));
    assert!(!is_rust_file("main.rsx"));
    assert!(!is_rust_file("rs"));
    assert!(check_path(Some("lib.rs")));
    assert!(!check_path(Some(".lib.rs")));
    assert!(!check_path(Some("notes.txt")));
    assert!(!check_path(None));
}

#[test]
fn sampler_grants_exactly_the_bound() {
    let mut sampler = Sampler::new(3);
    let mut picks = 0;
    while let Some(i) = sampler.next_pick() {
        assert!(i < 3);
        picks += 1;
    }
    assert_eq!(picks, 100);
    assert_eq!(MAX_ATTEMPTS, 100);
    assert_eq!(sampler.attempts_made(), 100);
    assert_eq!(sampler.next_pick(), None);
}

#[test]
fn sampler_without_candidates_gives_up_at_once() {
    let mut sampler = Sampler::new(0);
    assert_eq!(sampler.next_pick(), None);
    assert_eq!(sampler.attempts_made(), 0);
}

#[test]
fn keys_are_classified() {
    assert_eq!(classify_key('a'), KeyAction::Append('a'));
    assert_eq!(classify_key('\n'), KeyAction::Append('\n'));
    assert_eq!(classify_key(KEY_NEWLINE), KeyAction::Append('\n'));
    assert_eq!(classify_key(KEY_QUIT), KeyAction::Quit);
    assert_eq!(classify_key(KEY_NEXT_TEXT), KeyAction::NextText);
    assert_eq!(classify_key('é'), KeyAction::Unrecognized('é'));
}

#[test]
fn transcript_breaks_into_lines() {
    let mut game = Game::new(Some("fn main() {}\n".to_string())).unwrap();
    for c in ['a', 'b', KEY_NEWLINE, 'c'] {
        game.update(c);
    }
    assert_eq!(game.text_typed(), &vec!['a', 'b', '\n', 'c']);
    assert_eq!(game.transcript_lines(), vec![vec!['a', 'b'], vec!['c']]);
    game.update(KEY_NEWLINE);
    assert_eq!(game.transcript_lines(), vec![vec!['a', 'b'], vec!['c']]);
}

#[test]
fn next_text_replaces_text_and_transcript() {
    let mut game = Game::new(Some("old".to_string())).unwrap();
    game.update('x');
    assert_eq!(game.update(KEY_NEXT_TEXT), KeyAction::NextText);
    assert_eq!(game.next_text(Some("new".to_string())), Ok(()));
    assert_eq!(game.text_to_type(), "new");
    assert!(game.text_typed().is_empty());
    assert!(game.is_running());
    let redrawn = interpret("new", game.highlight_events()).unwrap();
    assert_eq!(game.glyphs_to_draw(), &redrawn);
    let chars: String = game.glyphs_to_draw().iter().map(|d| d.ch).collect();
    assert_eq!(chars, "new");
}

#[test]
fn highlighted_rust_source_is_coloured() {
    let game = Game::new(Some("fn main() {}\n".to_string())).unwrap();
    let draws = game.glyphs_to_draw();
    let chars: String = draws.iter().map(|d| d.ch).collect();
    assert_eq!(chars, "fnmain(){}");
    assert_eq!(draws[0].color, resolve(7).unwrap());
}

#[test]
fn placeholder_when_nothing_was_read() {
    let game = Game::new(None).unwrap();
    assert_eq!(game.text_to_type(), "Please press TAB!");
    assert!(game.is_running());
}

#[test]
fn failed_resample_stops_the_session() {
    let mut game = Game::new(Some("old".to_string())).unwrap();
    assert_eq!(game.next_text(None), Err(SessionError::NoReadableCandidate));
    assert!(!game.is_running());
}

#[test]
fn quit_stops_input() {
    let mut game = Game::new(Some("x".to_string())).unwrap();
    game.update('a');
    assert_eq!(game.update(KEY_QUIT), KeyAction::Quit);
    assert!(!game.is_running());
    game.update('b');
    assert_eq!(game.text_typed(), &vec!['a']);
}

#[test]
fn unstyled_categories_are_listed_in_order() {
    let events = vec![
        HighlightEvent::HighlightStart(5),
        src(0, 1),
        HighlightEvent::HighlightStart(7),
        HighlightEvent::HighlightEnd,
        HighlightEvent::HighlightStart(30),
        HighlightEvent::HighlightStart(5),
    ];
    assert_eq!(unstyled_categories(&events), vec![5, 30, 5]);
    assert!(unstyled_categories(&vec![HighlightEvent::HighlightStart(1)]).is_empty());
}

#[test]
fn transcript_drops_carriage_return_before_line_feed() {
    let mut game = Game::new(Some("x".to_string())).unwrap();
    for c in ['a', '\r', '\n', 'b', '\r'] {
        game.update(c);
    }
    assert_eq!(game.transcript_lines(), vec![vec!['a'], vec!['b', '\r']]);
}

#[test]
fn highlighting_twice_gives_the_same_events() {
    let mut game = Game::new(Some("fn f(x: u8) -> u8 { x + 1 }\n".to_string())).unwrap();
    let first = game.highlight_events().clone();
    let first_glyphs = game.glyphs_to_draw().clone();
    assert_eq!(game.update_highlighting(), Ok(()));
    assert_eq!(game.highlight_events(), &first);
    assert_eq!(game.glyphs_to_draw(), &first_glyphs);
    assert!(game.is_running());
}

#[test]
fn failed_resample_keeps_the_session_contents() {
    let mut game = Game::new(Some("old".to_string())).unwrap();
    game.update('q');
    let events = game.highlight_events().clone();
    let glyphs = game.glyphs_to_draw().clone();
    assert_eq!(game.next_text(None), Err(SessionError::NoReadableCandidate));
    assert_eq!(game.text_to_type(), "old");
    assert_eq!(game.text_typed(), &vec!['q']);
    assert_eq!(game.highlight_events(), &events);
    assert_eq!(game.glyphs_to_draw(), &glyphs);
}

#[test]
fn sample_reads_exactly_the_bound_when_nothing_reads() {
    let reads = std::cell::Cell::new(0u32);
    let (text, attempts) = sample(4, |i| {
        assert!(i < 4);
        reads.set(reads.get() + 1);
        None
    });
    assert_eq!(text, None);
    assert_eq!(attempts, 100);
    assert_eq!(reads.get(), 100);
}

#[test]
fn sample_stops_at_the_first_readable_candidate() {
    let (text, attempts) = sample(3, |i| Some(format!("file {i}")));
    assert!(text.unwrap().starts_with("file "));
    assert_eq!(attempts, 1);
    assert_eq!(sample(0, |_| Some(String::new())), (None, 0));
}
