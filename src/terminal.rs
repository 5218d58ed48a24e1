use vstd::prelude::*;
use crate::text::{spaces, spaces_string, string_of};

verus! {

/// One instruction to the terminal.
#[derive(Clone, Debug, PartialEq, Eq)]
pub enum TermCommand {
    /// Put the cursor at a column and row.
    MoveTo(u16, u16),
    /// Write text from the cursor rightwards; the cursor ends after it.
    Print(String),
    /// Send what has been queued.
    Flush,
}

/// A terminal command as a mathematical value.
pub enum CommandView {
    MoveTo(int, int),
    Print(Seq<char>),
    Flush,
}

impl View for TermCommand {
    type V = CommandView;

    open spec fn view(&self) -> CommandView {
        match self {
            TermCommand::MoveTo(c, r) => CommandView::MoveTo(*c as int, *r as int),
            TermCommand::Print(s) => CommandView::Print(s@),
            TermCommand::Flush => CommandView::Flush,
        }
    }
}

/// The commands of a list, as values.
pub open spec fn views(cmds: Seq<TermCommand>) -> Seq<CommandView> {
    cmds.map_values(|c: TermCommand| c@)
}

/// The cells of the screen and where the cursor stands, keyed by (column, row).
pub struct Screen {
    pub cells: Map<(int, int), char>,
    pub cursor: (int, int),
}

/// The cells that writing `text` at (`col`, `row`) sets.
pub open spec fn printed(col: int, row: int, text: Seq<char>) -> Map<(int, int), char> {
    Map::new(
        |p: (int, int)| p.1 == row && col <= p.0 < col + text.len(),
        |p: (int, int)| text[p.0 - col],
    )
}

/// The screen after one command.
pub open spec fn apply(s: Screen, c: CommandView) -> Screen {
    match c {
        CommandView::MoveTo(col, row) => Screen { cells: s.cells, cursor: (col, row) },
        CommandView::Print(text) => Screen {
            cells: s.cells.union_prefer_right(printed(s.cursor.0, s.cursor.1, text)),
            cursor: (s.cursor.0 + text.len(), s.cursor.1),
        },
        CommandView::Flush => s,
    }
}

/// The screen after a list of commands, carried out in order.
pub open spec fn apply_all(s: Screen, cs: Seq<CommandView>) -> Screen
    decreases cs.len(),
{
    if cs.len() == 0 {
        s
    } else {
        apply(apply_all(s, cs.drop_last()), cs.last())
    }
}

/// Painting `width` blanks on `row` from `start`.
pub open spec fn clear_view(start: int, row: int, width: nat) -> Seq<CommandView> {
    seq![CommandView::MoveTo(start, row), CommandView::Print(spaces(width))]
}

/// Writing `buffer` at `origin`, or nothing when characters are not echoed.
pub open spec fn reprint_view(buffer: Seq<char>, origin: (int, int), echo: bool) -> Seq<CommandView> {
    if echo {
        seq![CommandView::MoveTo(origin.0, origin.1), CommandView::Print(buffer)]
    } else {
        seq![]
    }
}

/// How many columns a redraw clears: the line-length limit when one is set,
/// else the rest of the terminal's width from `start`.
pub open spec fn clear_width(line_length: u16, term_width: u16, start: u16) -> nat {
    if line_length != 0 {
        line_length as nat
    } else if term_width > start {
        (term_width - start) as nat
    } else {
        0
    }
}

pub fn clear_width_for(line_length: u16, term_width: u16, start: u16) -> (r: u16)
    ensures
        r as nat == clear_width(line_length, term_width, start),
{
    if line_length != 0 {
        line_length
    } else if term_width > start {
        term_width - start
    } else {
        0
    }
}

/// Commands that paint `clear_width` blanks on `row` from `start_column`.
pub fn clear_from(start_column: u16, row: u16, clear_width: u16) -> (r: Vec<TermCommand>)
    ensures
        views(r@) == clear_view(start_column as int, row as int, clear_width as nat),
{
    let mut r: Vec<TermCommand> = Vec::new();
    r.push(TermCommand::MoveTo(start_column, row));
    r.push(TermCommand::Print(spaces_string(clear_width)));
    assert(views(r@) =~= clear_view(start_column as int, row as int, clear_width as nat));
    r
}

/// Commands that write `buffer` at `origin`; none when `echo` is off.
pub fn reprint(buffer: &Vec<char>, origin: (u16, u16), echo: bool) -> (r: Vec<TermCommand>)
    ensures
        views(r@) == reprint_view(buffer@, (origin.0 as int, origin.1 as int), echo),
{
    let mut r: Vec<TermCommand> = Vec::new();
    if echo {
        r.push(TermCommand::MoveTo(origin.0, origin.1));
        r.push(TermCommand::Print(string_of(buffer)));
    }
    assert(views(r@) =~= reprint_view(buffer@, (origin.0 as int, origin.1 as int), echo));
    r
}

proof fn lemma_apply_all_append(s: Screen, a: Seq<CommandView>, b: Seq<CommandView>)
    ensures
        apply_all(s, a + b) == apply_all(apply_all(s, a), b),
    decreases b.len(),
{
    if b.len() == 0 {
        assert(a + b =~= a);
    } else {
        lemma_apply_all_append(s, a, b.drop_last());
        assert((a + b).drop_last() =~= a + b.drop_last());
    }
}

proof fn lemma_apply_two(s: Screen, x: CommandView, y: CommandView)
    ensures
        apply_all(s, seq![x, y]) == apply(apply(s, x), y),
{
    assert(seq![x, y].drop_last() =~= seq![x]);
    assert(seq![x].drop_last() =~= Seq::<CommandView>::empty());
    reveal_with_fuel(apply_all, 3);
}

/// The screen after clearing and reprinting, stated directly.
pub open spec fn redrawn(
    s: Screen,
    buffer: Seq<char>,
    origin: (int, int),
    width: nat,
    echo: bool,
) -> Screen {
    let cleared = s.cells.union_prefer_right(printed(origin.0, origin.1, spaces(width)));
    if echo {
        Screen {
            cells: cleared.union_prefer_right(printed(origin.0, origin.1, buffer)),
            cursor: (origin.0 + buffer.len(), origin.1),
        }
    } else {
        Screen { cells: cleared, cursor: (origin.0 + width, origin.1) }
    }
}

proof fn lemma_redraw_effect(
    s: Screen,
    buffer: Seq<char>,
    origin: (int, int),
    width: nat,
    echo: bool,
)
    ensures
        apply_all(s, clear_view(origin.0, origin.1, width) + reprint_view(buffer, origin, echo))
            == redrawn(s, buffer, origin, width, echo),
{
    let c = clear_view(origin.0, origin.1, width);
    let p = reprint_view(buffer, origin, echo);
    lemma_apply_all_append(s, c, p);
    lemma_apply_two(s, c[0], c[1]);
    assert(c =~= seq![c[0], c[1]]);
    let s1 = apply_all(s, c);
    if echo {
        lemma_apply_two(s1, p[0], p[1]);
        assert(p =~= seq![p[0], p[1]]);
    } else {
        assert(apply_all(s1, p) == s1);
    }
}

/// Redrawing is idempotent: clearing from the origin and reprinting the same
/// buffer a second time leaves the screen, text and cursor, as the first
/// redraw left it.
pub proof fn lemma_redraw_idempotent(
    s: Screen,
    buffer: Seq<char>,
    origin: (int, int),
    width: nat,
    echo: bool,
)
    ensures
        ({
            let cmds = clear_view(origin.0, origin.1, width) + reprint_view(buffer, origin, echo);
            apply_all(apply_all(s, cmds), cmds) == apply_all(s, cmds)
        }),
{
    let s1 = redrawn(s, buffer, origin, width, echo);
    lemma_redraw_effect(s, buffer, origin, width, echo);
    lemma_redraw_effect(s1, buffer, origin, width, echo);
    assert(redrawn(s1, buffer, origin, width, echo).cells =~= s1.cells);
}

/// The terminal's size, or one cell by one when it could not be queried.
pub fn size_or_fallback(queried: Option<(u16, u16)>) -> (r: (u16, u16))
    ensures
        r == (match queried {
            Some(size) => size,
            None => (1u16, 1u16),
        }),
{
    match queried {
        Some(size) => size,
        None => (1, 1),
    }
}

/// Raw mode held for one session: it is switched on only where it was off,
/// and switched back off only by the guard that switched it on.
pub struct RawModeGuard {
    enabled_here: bool,
}

impl RawModeGuard {
    pub closed spec fn owns(&self) -> bool {
        self.enabled_here
    }

    /// Takes raw mode, given whether the terminal already was in it.
    pub fn acquire(already_raw: bool) -> (r: RawModeGuard)
        ensures
            r.owns() == !already_raw,
    {
        RawModeGuard { enabled_here: !already_raw }
    }

    /// Whether raw mode must be switched on now.
    pub fn must_enable(&self) -> (r: bool)
        ensures
            r == self.owns(),
    {
        self.enabled_here
    }

    /// Whether raw mode must be switched off when the session ends.
    pub fn must_restore(&self) -> (r: bool)
        ensures
            r == self.owns(),
    {
        self.enabled_here
    }
}

} // verus!
