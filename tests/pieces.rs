use termline::shapes::{align_line, wrap_words, Line, Rectangle, ShapeError, Text};
use termline::terminal::{size_or_fallback, RawModeGuard};
use termline::text::{spaces_string, string_of};

fn text(s: &str, limit: u16, alignment: char) -> Text {
    Text { origin: (0, 0), text: s.to_string(), line_legnth: limit, alignment }
}

#[test]
fn string_builder_wraps_words() {
    let t = text("the quick brown fox", 10, '<');
    assert_eq!(t.string_builder(), vec![" the quick", " brown fox"]);
    assert_eq!(t.dimensions(), (10, 2));
}

#[test]
fn string_builder_splits_on_any_whitespace() {
    let t = text("  hello \t\n  world ", 20, '<');
    assert_eq!(t.string_builder(), vec![" hello world"]);
}

#[test]
fn string_builder_of_empty_text() {
    let t = text("", 5, '<');
    assert_eq!(t.string_builder(), vec![""]);
    assert_eq!(t.dimensions(), (0, 1));
}

#[test]
fn long_first_word_leaves_first_line_empty() {
    let t = text("abcdefghijkl x", 5, '<');
    assert_eq!(t.string_builder(), vec!["", " abcdefghijkl", " x"]);
    assert_eq!(t.dimensions(), (13, 3));
}

#[test]
fn dimensions_count_bytes() {
    let t = text("é", 10, '<');
    assert_eq!(t.dimensions(), (3, 1));
}

#[test]
fn wrap_words_directly() {
    let words = vec!["ab".to_string(), "cd".to_string(), "e".to_string()];
    assert_eq!(wrap_words(&words, 5), vec![" ab cd", " e"]);
    assert_eq!(wrap_words(&Vec::new(), 5), vec![""]);
}

#[test]
fn aligned_lines_pad_to_the_widest() {
    assert_eq!(text("ab cde", 3, '<').aligned_lines(), vec![" ab ", " cde"]);
    assert_eq!(text("ab cde", 3, '>').aligned_lines(), vec!["  ab", " cde"]);
    assert_eq!(text("ab cde", 3, '^').aligned_lines(), vec![" ab ", " cde"]);
    assert_eq!(text("ab cde", 3, '?').aligned_lines(), vec![" ab ", " cde"]);
}

#[test]
fn align_line_centres_with_odd_space_right() {
    let s = "ab".to_string();
    assert_eq!(align_line(&s, 5, '^'), " ab  ");
    assert_eq!(align_line(&s, 5, '>'), "   ab");
    assert_eq!(align_line(&s, 5, '<'), "ab   ");
    assert_eq!(align_line(&s, 1, '^'), "ab");
}

#[test]
fn unsupported_operations() {
    let t = text("a", 3, '<');
    assert_eq!(t.erase(), Err(ShapeError::Unsupported));
    let r = Rectangle::with_dimensions((4, 3));
    assert_eq!(r.fill(), Err(ShapeError::Unsupported));
    assert_eq!(r.fill_background(), Err(ShapeError::Unsupported));
    assert_eq!(r.erase(), Err(ShapeError::Unsupported));
    assert_eq!(r.erase_fill(), Err(ShapeError::Unsupported));
    assert_eq!(r.erase_background(), Err(ShapeError::Unsupported));
    let l = Line::new((0, 0), (3, 0), '-');
    assert_eq!(l.draw(), Err(ShapeError::Unsupported));
    assert_eq!(l.erase(), Err(ShapeError::Unsupported));
}

#[test]
fn rectangle_border_cells() {
    let mut r = Rectangle::with_dimensions((4, 3));
    r.origin = (1, 1);
    let cells = r.border((80, 24));
    assert_eq!(
        cells,
        vec![
            (2, 1, '─'),
            (3, 1, '─'),
            (2, 3, '─'),
            (3, 3, '─'),
            (1, 2, '│'),
            (4, 2, '│'),
            (1, 1, '┌'),
            (4, 1, '┐'),
            (1, 3, '└'),
            (4, 3, '┘'),
        ]
    );
}

#[test]
fn rectangle_that_does_not_fit_draws_nothing() {
    let mut r = Rectangle::with_dimensions((10, 3));
    r.origin = (75, 0);
    assert!(r.border((80, 24)).is_empty());
    assert!(Rectangle::with_dimensions((0, 3)).border((80, 24)).is_empty());
    assert_eq!(Rectangle::with_dimensions((1, 1)).border((80, 24)).len(), 4);
}

#[test]
fn size_fallback() {
    assert_eq!(size_or_fallback(Some((120, 40))), (120, 40));
    assert_eq!(size_or_fallback(None), (1, 1));
}

#[test]
fn raw_mode_guard_restores_only_what_it_enabled() {
    let fresh = RawModeGuard::acquire(false);
    assert!(fresh.must_enable());
    assert!(fresh.must_restore());
    let nested = RawModeGuard::acquire(true);
    assert!(!nested.must_enable());
    assert!(!nested.must_restore());
}

#[test]
fn text_helpers() {
    assert_eq!(string_of(&vec!['a', 'ü', 'c']), "aüc");
    assert_eq!(spaces_string(3), "   ");
    assert_eq!(spaces_string(0), "");
}
