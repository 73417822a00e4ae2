use terminal_typer::{
    calculate_wpm, count_correct, diff, get_word_list, join_words, App, CharClass, DiffCell,
    KeyInput, Phase, PLACEHOLDER, WORDS_PER_PHRASE,
};

fn chars(s: &str) -> Vec<char> {
    s.chars().collect()
}

fn cell(ch: char, class: CharClass) -> DiffCell {
    DiffCell { ch, class }
}

#[test]
fn diff_length_counts_every_phrase_position() {
    let cases = [("cat dog", ""), ("cat dog", "ca"), ("cat", "cat dog"), ("", "abc"), ("", "")];
    for (p, t) in cases {
        let p = chars(p);
        let t = chars(t);
        let r = diff(&p, &t);
        let shorter = p.len().min(t.len());
        let untyped = if p.len() > t.len() { p.len() - t.len() } else { 0 };
        assert_eq!(r.len(), shorter + untyped);
    }
}

#[test]
fn snapshot_diff_twice_is_identical() {
    let mut app = App::new(chars("hello world"));
    app.apply_character('h', 10);
    app.apply_character('x', 11);
    let first = app.snapshot_diff();
    let second = app.snapshot_diff();
    assert_eq!(first, second);
}

#[test]
fn typing_lengthens_buffer_by_one_until_finished() {
    let mut app = App::new(chars("abcd"));
    let mut expected: usize = 0;
    for c in "abxdzz".chars() {
        let was_finished = app.is_finished();
        app.apply_character(c, 5);
        if !was_finished {
            expected += 1;
        }
        assert_eq!(app.typed_len(), expected);
    }
    assert_eq!(app.typed_len(), 4);
}

#[test]
fn finishes_exactly_when_phrase_length_reached() {
    let mut app = App::new(chars("abc"));
    assert_eq!(app.current_phase(), Phase::Idle);
    app.apply_character('a', 100);
    assert_eq!(app.current_phase(), Phase::Running);
    app.apply_character('b', 101);
    assert_eq!(app.current_phase(), Phase::Running);
    assert!(app.stats().is_none());
    app.apply_character('c', 103);
    assert_eq!(app.current_phase(), Phase::Finished);
    app.apply_backspace();
    app.apply_character('z', 104);
    assert_eq!(app.current_phase(), Phase::Finished);
    assert_eq!(app.typed_len(), 3);
    let s = app.stats().unwrap();
    assert_eq!(s.elapsed_seconds, 3);
    assert_eq!(s.correct_char_count, 3);
    assert_eq!(s.total_char_count, 3);
}

#[test]
fn restart_resets_fully() {
    let mut app = App::new(chars("ab"));
    app.apply_character('a', 1);
    app.apply_character('b', 2);
    assert!(app.is_finished());
    app.restart(chars("xyz"));
    assert_eq!(app.current_phase(), Phase::Idle);
    assert_eq!(app.typed_len(), 0);
    assert!(app.stats().is_none());
    assert_eq!(app.snapshot_diff().len(), 3);
}

#[test]
fn wpm_formula() {
    let w = calculate_wpm(25, 60);
    assert_eq!(w.numerator, 300);
    assert_eq!(w.denominator, 60);
    assert_eq!(w.numerator as f64 / w.denominator as f64, 5.0);
}

#[test]
fn wpm_zero_seconds_counts_as_one() {
    let w = calculate_wpm(10, 0);
    assert_eq!(w.numerator, 120);
    assert_eq!(w.denominator, 1);
}

#[test]
fn cat_dog_scenario() {
    let p = chars("cat dog");
    let t = chars("cat dig");
    let r = diff(&p, &t);
    assert_eq!(
        r,
        vec![
            cell('c', CharClass::Correct),
            cell('a', CharClass::Correct),
            cell('t', CharClass::Correct),
            cell(' ', CharClass::Correct),
            cell('d', CharClass::Correct),
            cell('i', CharClass::Incorrect),
            cell('g', CharClass::Correct),
        ]
    );
    assert_eq!(count_correct(&p, &t), 6);
    let mut app = App::new(p);
    for (k, c) in "cat dig".chars().enumerate() {
        app.apply_character(c, 50 + k as u64);
    }
    let s = app.stats().unwrap();
    assert_eq!(s.correct_char_count, 6);
    assert_eq!(s.total_char_count, 7);
}

#[test]
fn wrong_character_on_space_shows_placeholder() {
    let r = diff(&chars("a b"), &chars("axb"));
    assert_eq!(r[1], cell(PLACEHOLDER, CharClass::Incorrect));
    let r = diff(&chars("ab"), &chars("a "));
    assert_eq!(r[1], cell(' ', CharClass::Incorrect));
}

#[test]
fn untyped_positions_show_phrase() {
    let r = diff(&chars("dog"), &chars("d"));
    assert_eq!(
        r,
        vec![
            cell('d', CharClass::Correct),
            cell('o', CharClass::Untyped),
            cell('g', CharClass::Untyped),
        ]
    );
}

#[test]
fn overflow_characters_are_not_scored() {
    let p = chars("abcdefghij");
    let t = chars("abcdefghijkl");
    let r = diff(&p, &t);
    assert_eq!(r.len(), 10);
    assert!(r.iter().all(|c| c.class == CharClass::Correct));
    assert_eq!(count_correct(&p, &t), 10);
    let mut app = App::new(p);
    app.apply_character('z', 0);
    for c in "bcdefghij".chars() {
        app.apply_character(c, 7);
    }
    assert!(app.is_finished());
    let s = app.stats().unwrap();
    assert_eq!(s.correct_char_count, 9);
    assert_eq!(s.total_char_count, 10);
    assert_eq!(s.elapsed_seconds, 7);
    assert_eq!(s.wpm.numerator, 108);
    assert_eq!(s.wpm.denominator, 7);
}

#[test]
fn backspace_on_restarted_buffer_is_noop() {
    let mut app = App::new(chars("abc"));
    app.apply_character('a', 3);
    app.restart(chars("xyz"));
    app.apply_backspace();
    assert_eq!(app.typed_len(), 0);
    assert_eq!(app.current_phase(), Phase::Idle);
}

#[test]
fn backspace_while_running_keeps_phase() {
    let mut app = App::new(chars("abc"));
    app.apply_character('x', 3);
    app.apply_backspace();
    assert_eq!(app.typed_len(), 0);
    assert_eq!(app.current_phase(), Phase::Running);
    app.apply_character('a', 4);
    app.apply_character('b', 5);
    app.apply_character('c', 9);
    assert_eq!(app.stats().unwrap().elapsed_seconds, 6);
}

#[test]
fn empty_phrase_finishes_on_first_character() {
    let mut app = App::new(Vec::new());
    app.apply_character('q', 4);
    assert!(app.is_finished());
    let s = app.stats().unwrap();
    assert_eq!(s.correct_char_count, 0);
    assert_eq!(s.elapsed_seconds, 0);
    assert_eq!(s.wpm.denominator, 1);
}

#[test]
fn set_done_freezes_session() {
    let mut app = App::new(chars("abcdef"));
    app.apply_character('a', 10);
    app.apply_character('b', 12);
    app.set_done(20);
    assert!(app.is_finished());
    let s = app.stats().unwrap();
    assert_eq!(s.elapsed_seconds, 10);
    assert_eq!(s.correct_char_count, 2);
    app.apply_character('c', 21);
    assert_eq!(app.typed_len(), 2);
}

#[test]
fn key_events_drive_the_session() {
    let mut app = App::new(chars("ab"));
    app.handle_key_event(KeyInput::Char('a'), 1);
    app.handle_key_event(KeyInput::Backspace, 1);
    app.handle_key_event(KeyInput::Char('a'), 2);
    app.handle_key_event(KeyInput::Char('b'), 4);
    assert!(app.is_finished());
    app.handle_key_event(KeyInput::Restart, 5);
    assert_eq!(app.current_phase(), Phase::Idle);
    let cells = app.snapshot_diff();
    let spaces = cells.iter().filter(|c| c.ch == ' ').count();
    assert_eq!(spaces, WORDS_PER_PHRASE - 1);
    assert!(!app.is_exiting());
    app.handle_key_event(KeyInput::Quit, 6);
    assert!(app.is_exiting());
}

#[test]
fn join_words_uses_single_spaces() {
    let words = vec![chars("cat"), chars("dog"), chars("eel")];
    assert_eq!(join_words(&words), chars("cat dog eel"));
    assert_eq!(join_words(&vec![chars("one")]), chars("one"));
    assert_eq!(join_words(&Vec::new()), Vec::<char>::new());
}

#[test]
fn generated_phrase_is_listed_words() {
    let p = get_word_list(4);
    let s: String = p.iter().collect();
    let words: Vec<&str> = s.split(' ').collect();
    assert_eq!(words.len(), 4);
    for w in words {
        assert!(memorable_wordlist::WORDS.contains(&w));
    }
}
