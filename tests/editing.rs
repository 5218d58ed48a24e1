use std::collections::HashMap;

use termline::editor::{
    accept_plain_key, char_of_key, classify, edit_line, Edit, LineEditor, Readline, Status,
};
use termline::error::ReadlineError;
use termline::keys::{Event, KeyCode, KeyEvent, KeyModifiers};
use termline::terminal::{clear_from, reprint, TermCommand};

fn key(code: KeyCode) -> Event {
    Event::Key(KeyEvent::new(code, KeyModifiers::none()))
}

fn ch(c: char) -> Event {
    key(KeyCode::Char(c))
}

fn ctrl_c() -> Event {
    Event::Key(KeyEvent::new(KeyCode::Char('c'), KeyModifiers::control()))
}

fn typed(s: &str) -> Vec<Event> {
    s.chars().map(ch).collect()
}

fn session(config: &Readline, events: Vec<Event>) -> (Option<Result<String, ReadlineError>>, Vec<TermCommand>) {
    edit_line(config, (3, 0), 80, &events)
}

fn finished(config: &Readline, events: Vec<Event>) -> String {
    match session(config, events).0 {
        Some(Ok(line)) => line,
        other => panic!("unexpected outcome {:?}", other),
    }
}

#[test]
fn enter_returns_typed_line() {
    let events = vec![ch('h'), ch('i'), key(KeyCode::Enter)];
    assert_eq!(finished(&Readline::default(), events), "hi");
}

#[test]
fn backspaces_empty_the_line() {
    let events = vec![
        ch('h'),
        ch('i'),
        key(KeyCode::Backspace),
        key(KeyCode::Backspace),
        key(KeyCode::Enter),
    ];
    assert_eq!(finished(&Readline::default(), events), "");
}

#[test]
fn leading_backspace_is_ignored() {
    let events = vec![key(KeyCode::Backspace), ch('x'), key(KeyCode::Enter)];
    assert_eq!(finished(&Readline::default(), events), "x");
}

#[test]
fn insert_after_moving_left() {
    let events = vec![
        ch('a'),
        ch('b'),
        ch('c'),
        key(KeyCode::Left),
        key(KeyCode::Left),
        ch('Z'),
        key(KeyCode::Enter),
    ];
    assert_eq!(finished(&Readline::default(), events), "aZbc");
}

#[test]
fn ctrl_c_interrupts() {
    let (outcome, _) = session(&Readline::default(), vec![ctrl_c()]);
    assert!(matches!(outcome, Some(Err(ReadlineError::Interrupted))));
}

#[test]
fn ctrl_c_interrupts_with_text_typed() {
    let mut events = typed("abc");
    events.push(ctrl_c());
    events.push(key(KeyCode::Enter));
    let (outcome, _) = session(&Readline::default(), events);
    assert!(matches!(outcome, Some(Err(ReadlineError::Interrupted))));
}

#[test]
fn ctrl_alt_c_interrupts() {
    let mods = KeyModifiers::control().union(KeyModifiers::alt());
    let events = vec![ch('q'), Event::Key(KeyEvent::new(KeyCode::Char('c'), mods))];
    let (outcome, _) = session(&Readline::default(), events);
    assert!(matches!(outcome, Some(Err(ReadlineError::Interrupted))));
}

#[test]
fn hidden_input_writes_nothing() {
    let mut config = Readline::default();
    config.echo = false;
    let mut events = typed("secret");
    events.push(key(KeyCode::Enter));
    let (outcome, commands) = session(&config, events);
    assert!(matches!(outcome, Some(Ok(ref line)) if line == "secret"));
    assert!(commands.iter().all(|c| !matches!(c, TermCommand::Print(_))));
    assert_eq!(commands.len(), 12);
}

#[test]
fn typing_builds_the_text_in_order() {
    let mut events = typed("Hello, World!");
    events.push(key(KeyCode::Enter));
    assert_eq!(finished(&Readline::default(), events), "Hello, World!");
}

#[test]
fn shifted_characters_are_typed() {
    let events = vec![
        Event::Key(KeyEvent::new(KeyCode::Char('A'), KeyModifiers::shift())),
        ch('b'),
        key(KeyCode::Enter),
    ];
    assert_eq!(finished(&Readline::default(), events), "Ab");
}

#[test]
fn other_modifiers_do_nothing() {
    let events = vec![
        Event::Key(KeyEvent::new(KeyCode::Char('x'), KeyModifiers::alt())),
        Event::Key(KeyEvent::new(KeyCode::Enter, KeyModifiers::shift())),
        key(KeyCode::Tab),
        ch('y'),
        key(KeyCode::Enter),
    ];
    assert_eq!(finished(&Readline::default(), events), "y");
}

#[test]
fn backspace_on_empty_line_sends_nothing() {
    let (outcome, commands) = session(&Readline::default(), vec![key(KeyCode::Backspace)]);
    assert!(outcome.is_none());
    assert!(commands.is_empty());
}

#[test]
fn cursor_is_clamped_to_the_line() {
    let config = Readline::default();
    let mut editor = LineEditor::new(&config, (5, 2));
    let mut out = Vec::new();
    editor.handle_event(key(KeyCode::Left), 80, &mut out);
    assert_eq!(editor.cursor_column(), 5);
    editor.handle_event(ch('a'), 80, &mut out);
    editor.handle_event(ch('b'), 80, &mut out);
    assert_eq!(editor.cursor_column(), 7);
    editor.handle_event(key(KeyCode::Right), 80, &mut out);
    assert_eq!(editor.cursor_column(), 7);
    for _ in 0..4 {
        editor.handle_event(key(KeyCode::Left), 80, &mut out);
    }
    assert_eq!(editor.cursor_column(), 5);
    editor.handle_event(key(KeyCode::Right), 80, &mut out);
    assert_eq!(editor.cursor_column(), 6);
    assert_eq!(editor.line(), "ab");
    assert_eq!(editor.status(), Status::Editing);
}

#[test]
fn typing_sends_redraw_then_cursor() {
    let (_, commands) = session(&Readline::default(), vec![ch('h')]);
    assert_eq!(
        commands,
        vec![
            TermCommand::MoveTo(3, 0),
            TermCommand::Print(" ".repeat(77)),
            TermCommand::MoveTo(3, 0),
            TermCommand::Print("h".to_string()),
            TermCommand::MoveTo(4, 0),
            TermCommand::Flush,
        ]
    );
}

#[test]
fn line_length_sets_clear_width() {
    let mut config = Readline::default();
    config.line_length = 5;
    let (_, commands) = session(&config, vec![ch('h')]);
    assert_eq!(commands[1], TermCommand::Print("     ".to_string()));
}

#[test]
fn clear_width_is_zero_past_the_terminal() {
    let events = vec![ch('h')];
    let (_, commands) = edit_line(&Readline::default(), (90, 0), 80, &events);
    assert_eq!(commands[1], TermCommand::Print(String::new()));
}

#[test]
fn moving_sends_cursor_only() {
    let mut events = typed("ab");
    events.push(key(KeyCode::Left));
    let (_, commands) = session(&Readline::default(), events);
    let tail = &commands[commands.len() - 2..];
    assert_eq!(tail, &[TermCommand::MoveTo(4, 0), TermCommand::Flush]);
    assert_eq!(commands.len(), 14);
}

#[test]
fn ignored_keys_are_discarded() {
    let mut config = Readline::default();
    config.ignored_keys.push((KeyCode::Char('x'), KeyModifiers::none()));
    config.ignored_keys.push((KeyCode::Char('c'), KeyModifiers::control()));
    let events = vec![ch('x'), ctrl_c(), ch('y'), key(KeyCode::Enter)];
    assert_eq!(finished(&config, events), "y");
}

#[test]
fn end_of_input_gives_eof() {
    let events = vec![ch('a'), Event::EndOfInput, key(KeyCode::Enter)];
    let (outcome, _) = session(&Readline::default(), events);
    assert!(matches!(outcome, Some(Err(ReadlineError::EoF))));
}

#[test]
fn other_events_are_ignored() {
    let events = vec![ch('a'), Event::Other, ch('b'), key(KeyCode::Enter)];
    assert_eq!(finished(&Readline::default(), events), "ab");
}

#[test]
fn unfinished_session_has_no_outcome() {
    let (outcome, _) = session(&Readline::default(), typed("abc"));
    assert!(outcome.is_none());
}

#[test]
fn events_after_enter_change_nothing() {
    let events = vec![ch('a'), key(KeyCode::Enter), ch('b'), ctrl_c()];
    assert_eq!(finished(&Readline::default(), events), "a");
}

#[test]
fn text_stops_at_the_last_column() {
    let mut events = typed("abcd");
    events.push(key(KeyCode::Enter));
    let (outcome, _) = edit_line(&Readline::default(), (u16::MAX - 2, 0), 80, &events);
    assert!(matches!(outcome, Some(Ok(ref line)) if line == "ab"));
}

#[test]
fn non_ascii_characters_are_single_units() {
    let events = vec![
        ch('é'),
        ch('ß'),
        key(KeyCode::Left),
        key(KeyCode::Backspace),
        key(KeyCode::Enter),
    ];
    assert_eq!(finished(&Readline::default(), events), "ß");
}

#[test]
fn classify_keys() {
    assert_eq!(classify(KeyEvent::new(KeyCode::Enter, KeyModifiers::none())), Edit::Complete);
    assert_eq!(classify(KeyEvent::new(KeyCode::Char('c'), KeyModifiers::control())), Edit::Interrupt);
    assert_eq!(classify(KeyEvent::new(KeyCode::Char('c'), KeyModifiers::none())), Edit::Insert('c'));
    assert_eq!(classify(KeyEvent::new(KeyCode::Char('d'), KeyModifiers::control())), Edit::Nothing);
    assert_eq!(classify(KeyEvent::new(KeyCode::Right, KeyModifiers::none())), Edit::MoveRight);
}

#[test]
fn default_config() {
    let config = Readline::default();
    assert!(config.echo);
    assert_eq!(config.prompt, ">> ");
    assert_eq!(config.origin, (0, 0));
    assert_eq!(config.line_length, 0);
    assert!(config.ignored_keys.is_empty());
}

fn paint(screen: &mut HashMap<(u32, u32), char>, cursor: &mut (u32, u32), commands: &[TermCommand]) {
    for c in commands {
        match c {
            TermCommand::MoveTo(x, y) => *cursor = (*x as u32, *y as u32),
            TermCommand::Print(s) => {
                for ch in s.chars() {
                    screen.insert(*cursor, ch);
                    cursor.0 += 1;
                }
            }
            TermCommand::Flush => {}
        }
    }
}

#[test]
fn redraw_twice_changes_nothing() {
    let buffer: Vec<char> = "hello".chars().collect();
    let mut commands = clear_from(2, 1, 10);
    commands.extend(reprint(&buffer, (2, 1), true));
    let mut screen = HashMap::new();
    screen.insert((0, 1), '>');
    screen.insert((9, 1), 'q');
    let mut cursor = (0, 0);
    paint(&mut screen, &mut cursor, &commands);
    let once = (screen.clone(), cursor);
    paint(&mut screen, &mut cursor, &commands);
    assert_eq!((screen, cursor), once);
    assert_eq!(once.0.get(&(2, 1)), Some(&'h'));
    assert_eq!(once.0.get(&(9, 1)), Some(&' '));
    assert_eq!(once.0.get(&(0, 1)), Some(&'>'));
    assert_eq!(once.1, (7, 1));
}

#[test]
fn reprint_without_echo_is_empty() {
    let buffer: Vec<char> = "pw".chars().collect();
    assert!(reprint(&buffer, (0, 0), false).is_empty());
    assert_eq!(
        reprint(&buffer, (1, 2), true),
        vec![TermCommand::MoveTo(1, 2), TermCommand::Print("pw".to_string())]
    );
}

#[test]
fn plain_keys_build_a_line() {
    let mut line = Vec::new();
    assert!(!accept_plain_key(&mut line, KeyCode::Char('o')));
    assert!(!accept_plain_key(&mut line, KeyCode::Backspace));
    assert!(!accept_plain_key(&mut line, KeyCode::Char('k')));
    assert!(accept_plain_key(&mut line, KeyCode::Enter));
    assert_eq!(line, vec!['o', 'k']);
}

#[test]
fn char_of_key_picks_characters() {
    assert_eq!(char_of_key(KeyCode::Char('q')), Some('q'));
    assert_eq!(char_of_key(KeyCode::Esc), None);
}
