use typing_engine::app::{App, Key, KeyAction};
use typing_engine::line::{line_role, LineRole};
use typing_engine::progress::TypingProgress;
use typing_engine::theme::Theme;
use typing_engine::typing::{accuracy, words_per_minute, Typing, TypingError};

fn type_all(mut t: Typing, keys: &str) -> Typing {
    for c in keys.chars() {
        t = t.input(c);
    }
    t
}

#[test]
fn new_session_starts_before_start() {
    for text in ["a", "cat\ndog", "\n", "hello world"] {
        let t = Typing::new(text, 30, 5).unwrap();
        assert!(t.is_before_start());
        assert_eq!(t.typed(), 0);
        assert_eq!(t.typo(), 0);
        assert_eq!(t.current_line_index(), 0);
        assert_eq!(t.get_remaining_time(), 30);
    }
}

#[test]
fn empty_passage_is_invalid_input() {
    assert!(matches!(Typing::new("", 30, 5), Err(TypingError::InvalidInput)));
    assert!(matches!(App::new("", 30, 5), Err(TypingError::InvalidInput)));
}

#[test]
fn counters_follow_scored_keystrokes() {
    let t = Typing::new("ab\ncd", 30, 5).unwrap();
    // a (ok), x (typo), newline (moves on), z (typo), d (ok)
    let t = type_all(t, "ax\nzd");
    assert!(t.is_finish());
    assert_eq!(t.typed() + t.typo(), 4);
    assert_eq!(t.typed(), 2);
    assert_eq!(t.typo(), 2);
}

#[test]
fn key_on_completed_line_other_than_newline_is_a_typo() {
    let t = Typing::new("ab\ncd", 30, 5).unwrap();
    let t = type_all(t, "abq");
    assert_eq!(t.typed(), 2);
    assert_eq!(t.typo(), 1);
    assert!(t.is_error());
    assert_eq!(t.current_line_index(), 0);
    let t = t.input('\n');
    assert!(!t.is_error());
    assert_eq!(t.current_line_index(), 1);
}

#[test]
fn keystrokes_advance_cursor_by_one() {
    let t = Typing::new("abc", 30, 5).unwrap().start();
    let t = t.input('a');
    assert_eq!(t.lines()[0].cursor, 1);
    assert!(!t.is_error());
    let t = t.input('z');
    assert_eq!(t.lines()[0].cursor, 2);
    assert!(t.is_error());
    assert_eq!(t.typo(), 1);
    assert!(t.lines()[0].is_error_at(1));
    assert!(!t.lines()[0].is_error_at(0));
    assert_eq!(t.lines()[0].entered_text(), vec!['a', 'b']);
    assert_eq!(t.lines()[0].current_text(), vec!['c']);
    assert_eq!(t.lines()[0].rest_text(), Vec::<char>::new());
}

#[test]
fn last_character_finishes_with_time_left() {
    let t = Typing::new("ab", 120, 5).unwrap();
    let t = type_all(t, "ab");
    assert!(t.is_finish());
    assert_eq!(t.get_remaining_time(), 120);
    let t = t.input('c');
    assert_eq!(t.typed(), 2);
    assert_eq!(t.typo(), 0);
}

#[test]
fn countdown_finishes_after_total_ticks() {
    let mut t = Typing::new("abc", 3, 5).unwrap().start();
    t = t.tick();
    assert!(t.is_running());
    t = t.tick();
    assert!(t.is_running());
    t = t.tick();
    assert!(t.is_finish());
    assert_eq!(t.get_remaining_time(), 0);
}

#[test]
fn restart_resets_counters_and_keeps_duration() {
    let app = App::new("cat\ndog", 30, 5).unwrap().start();
    let app = "cxt\ndog".chars().fold(app, |a, c| a.input(c));
    assert!(app.typing.is_finish());
    let app = app.restart("cat\ndog");
    assert!(app.typing.is_before_start());
    assert_eq!(app.typing.typed(), 0);
    assert_eq!(app.typing.typo(), 0);
    assert_eq!(app.typing.current_line_index(), 0);
    assert_eq!(app.time, 30);
    assert_eq!(app.typing.get_remaining_time(), 30);
}

#[test]
fn restart_only_from_finished() {
    let t = Typing::new("ab", 30, 5).unwrap().start().input('a');
    let t = t.restart("zz", 10);
    assert!(t.is_running());
    assert_eq!(t.typed(), 1);
}

#[test]
fn accuracy_values() {
    assert_eq!(accuracy(8, 2), 80);
    assert_eq!(accuracy(0, 0), 100);
    assert_eq!(accuracy(6, 1), 86);
    assert_eq!(accuracy(1, 7), 13);
    let t = Typing::new("abcdefghij", 30, 5).unwrap();
    let t = type_all(t, "abcdefghzz");
    assert_eq!(t.typed(), 8);
    assert_eq!(t.typo(), 2);
    assert_eq!(t.acc(), 80);
    assert_eq!(Typing::new("a", 30, 5).unwrap().acc(), 100);
}

#[test]
fn words_per_minute_values() {
    assert_eq!(words_per_minute(50, 60), 10);
    assert_eq!(words_per_minute(50, 0), 600);
    assert_eq!(words_per_minute(0, 10), 0);
    assert_eq!(words_per_minute(10, 30), 4);
    let text = "a".repeat(50);
    let t = type_all(Typing::new(&text, 120, 5).unwrap(), &text);
    assert_eq!(t.typed(), 50);
    assert_eq!(t.wpm_at(60), 10);
    assert_eq!(Typing::new("a", 30, 5).unwrap().wpm(), 0);
}

#[test]
fn cat_dog_all_correct() {
    let t = Typing::new("cat\ndog", 30, 5).unwrap();
    let t = type_all(t, "cat\ndog");
    assert!(t.is_finish());
    assert_eq!(t.typed(), 6);
    assert_eq!(t.typo(), 0);
    assert_eq!(t.acc(), 100);
}

#[test]
fn cat_dog_one_typo() {
    let t = Typing::new("cat\ndog", 30, 5).unwrap();
    // The wrong key still consumes its character, so five of the six are typed correctly.
    let t = type_all(t, "cxt\ndog");
    assert!(t.is_finish());
    assert_eq!(t.typed(), 5);
    assert_eq!(t.typo(), 1);
    assert_eq!(t.typed() + t.typo(), 6);
    assert_eq!(t.acc(), 83);
    assert!(t.lines()[0].is_error_at(1));
}

#[test]
fn progress_three_samples() {
    let p = TypingProgress::new();
    let p = p.record(true, 1, 12, 100);
    let p = p.record(true, 2, 30, 90);
    let p = p.record(true, 3, 24, 95);
    assert_eq!(p.wpm_plot(), vec![(1, 12), (2, 30), (3, 24)]);
    assert_eq!(p.acc_plot(), vec![(1, 100), (2, 90), (3, 95)]);
    assert_eq!(p.wpm_max(), 30);
    let p = p.record(false, 4, 99, 99);
    assert_eq!(p.wpm_plot().len(), 3);
    assert_eq!(p.wpm_max(), 30);
}

#[test]
fn app_ticks_sample_running_session() {
    let mut app = App::new("abcdef", 10, 5).unwrap().start();
    app = app.input('a');
    for _ in 0..3 {
        app = app.tick();
    }
    let r = app.result();
    assert_eq!(r.wpm_plot.len(), 3);
    assert_eq!(r.acc_plot.len(), 3);
    assert_eq!(r.wpm_plot.iter().map(|p| p.0).collect::<Vec<_>>(), vec![1, 2, 3]);
    assert_eq!(r.wpm_max, r.wpm_plot.iter().map(|p| p.1).max().unwrap());
    assert_eq!(r.acc_plot[0].1, 100);
    assert_eq!(app.elapsed_time(), 3);
}

#[test]
fn filter_text_drops_non_latin1_and_expands_tabs() {
    assert_eq!(App::filter_text("a\tb"), "a  b");
    assert_eq!(App::filter_text("caf\u{e9}\u{3042}!"), "caf\u{e9}!");
    assert_eq!(App::filter_text(""), "");
    let app = App::new("\u{3042}", 30, 5);
    assert!(matches!(app, Err(TypingError::InvalidInput)));
}

#[test]
fn tabs_become_two_spaces_in_session() {
    let t = App::new("\tx", 30, 5).unwrap().typing;
    assert_eq!(t.lines()[0].text, vec![' ', ' ', 'x']);
}

#[test]
fn theme_names() {
    assert_eq!(Theme::new("light"), Theme::Light);
    assert_eq!(Theme::new("dark"), Theme::Dark);
    assert_eq!(Theme::new("other"), Theme::Dark);
}

#[test]
fn time_menu() {
    let app = App::new("abc", 45, 5).unwrap();
    assert_eq!(app.selectable_time(), vec![15, 30, 45, 60, 120]);
    let app = app.next_time();
    assert_eq!(app.time, 45);
    let app = app.next_time();
    assert_eq!(app.time, 45);
    let app = app.prev_time();
    assert_eq!(app.time, 120);
    let app = app.prev_time().prev_time().prev_time();
    assert_eq!(app.time, 15);
    let app = app.prev_time();
    assert_eq!(app.time, 45);
    let app = App::new("abc", 30, 5).unwrap();
    assert_eq!(app.selectable_time(), vec![15, 30, 60, 120]);
    let app = App::new("abc", 200, 5).unwrap();
    assert_eq!(app.selectable_time(), vec![15, 30, 60, 120, 200]);
    assert_eq!(app.next_time().time, 15);
}

#[test]
fn start_takes_selected_time() {
    let app = App::new("abc", 30, 5).unwrap().next_time().start();
    assert!(app.typing.is_running());
    assert_eq!(app.typing.get_remaining_time(), 60);
}

#[test]
fn display_window() {
    let t = Typing::new("a\nb\nc\nd", 30, 2).unwrap();
    assert_eq!(t.display_range(), (0, 2));
    let t = type_all(t, "a\nb\nc\n");
    assert_eq!(t.display_range(), (3, 4));
}

#[test]
fn finish_ends_running_session() {
    let t = Typing::new("abc", 30, 5).unwrap();
    let t = t.finish();
    assert!(t.is_before_start());
    let t = t.start().finish();
    assert!(t.is_finish());
}

#[test]
fn keys_before_start() {
    let app = App::new("ab", 30, 5).unwrap();
    assert_eq!(app.classify_key(Key::Right), KeyAction::NextTime);
    assert_eq!(app.classify_key(Key::Left), KeyAction::PrevTime);
    assert_eq!(app.classify_key(Key::Char('q', false)), KeyAction::Quit);
    assert_eq!(app.classify_key(Key::Char('c', true)), KeyAction::Quit);
    assert_eq!(app.classify_key(Key::Char('c', false)), KeyAction::Type('c'));
    assert_eq!(app.classify_key(Key::Enter), KeyAction::Ignore);
    let (app, quit) = app.on_key(Key::Right, "ab");
    assert!(!quit);
    assert_eq!(app.time, 60);
    let (app, quit) = app.on_key(Key::Char('a', false), "ab");
    assert!(!quit);
    assert!(app.typing.is_running());
    assert_eq!(app.typing.get_remaining_time(), 60);
    assert_eq!(app.typing.typed(), 1);
}

#[test]
fn keys_while_running_and_finished() {
    let app = App::new("a\nb", 30, 5).unwrap().start();
    assert_eq!(app.classify_key(Key::Enter), KeyAction::Type('\n'));
    assert_eq!(app.classify_key(Key::Char('q', false)), KeyAction::Type('q'));
    assert_eq!(app.classify_key(Key::Char('c', true)), KeyAction::Finish);
    let (app, _) = app.on_key(Key::Char('a', false), "a\nb");
    let (app, _) = app.on_key(Key::Enter, "a\nb");
    assert_eq!(app.typing.current_line_index(), 1);
    let (app, quit) = app.on_key(Key::Char('c', true), "a\nb");
    assert!(!quit);
    assert!(app.typing.is_finish());
    assert_eq!(app.classify_key(Key::Char('x', false)), KeyAction::Ignore);
    assert_eq!(app.classify_key(Key::Char('r', false)), KeyAction::Restart);
    let (app, quit) = app.on_key(Key::Char('q', false), "a\nb");
    assert!(quit);
    let (app, quit) = app.on_key(Key::Char('r', false), "xyz");
    assert!(!quit);
    assert!(app.typing.is_before_start());
    assert_eq!(app.typing.lines()[0].text, vec!['x', 'y', 'z']);
}

#[test]
fn line_roles() {
    assert_eq!(line_role(1, 0), LineRole::Current);
    assert_eq!(line_role(3, 0), LineRole::Ahead);
    assert_eq!(line_role(1, 2), LineRole::Behind);
}

#[test]
fn trailing_newline_leaves_empty_last_line() {
    let t = Typing::new("ab\n", 30, 5).unwrap();
    assert_eq!(t.lines().len(), 2);
    let t = type_all(t, "ab");
    assert!(t.is_running());
    let t = t.input('\n');
    assert!(t.is_running());
    assert_eq!(t.current_line_index(), 1);
    let t = t.input('\n');
    assert!(t.is_finish());
}
