use vstd::prelude::*;
use vstd::string::StringExecFns;
use crate::error::ReadlineError;
use crate::keys::{Event, KeyCode, KeyEvent, KeyModifiers, CONTROL_BIT, SHIFT_BIT};
use crate::terminal::{
    clear_from, clear_view, clear_width, clear_width_for, reprint, reprint_view, views, CommandView,
    TermCommand,
};
use crate::text::string_of;

verus! {

/// The settings of one editing session.
pub struct Readline {
    /// Whether typed characters are shown.
    pub echo: bool,
    /// Text written once before editing starts.
    pub prompt: String,
    pub origin: (u16, u16),
    /// When not zero, how many columns a redraw clears.
    pub line_length: u16,
    /// Key and modifier pairs that are discarded unread.
    pub ignored_keys: Vec<(KeyCode, KeyModifiers)>,
}

impl Default for Readline {
    fn default() -> (r: Self)
        ensures
            r.echo,
            r.prompt@ == ">> "@,
            r.origin == (0u16, 0u16),
            r.line_length == 0,
            r.ignored_keys@.len() == 0,
    {
        Readline {
            echo: true,
            prompt: String::from_str(">> "),
            origin: (0, 0),
            line_length: 0,
            ignored_keys: Vec::new(),
        }
    }
}

/// Where a session stands.
#[derive(Clone, Copy, Debug, PartialEq, Eq, Structural)]
pub enum Status {
    Editing,
    Completed,
    Interrupted,
    Closed,
}

/// What a key asks of the editor.
#[derive(Clone, Copy, Debug, PartialEq, Eq, Structural)]
pub enum Edit {
    Complete,
    DeleteBack,
    MoveLeft,
    MoveRight,
    Insert(char),
    Interrupt,
    Nothing,
}

/// The edit that a key asks for.
pub open spec fn edit_of(k: KeyEvent) -> Edit {
    let plain = k.modifiers.bits == 0;
    match k.code {
        KeyCode::Enter => if plain { Edit::Complete } else { Edit::Nothing },
        KeyCode::Backspace => if plain { Edit::DeleteBack } else { Edit::Nothing },
        KeyCode::Left => if plain { Edit::MoveLeft } else { Edit::Nothing },
        KeyCode::Right => if plain { Edit::MoveRight } else { Edit::Nothing },
        KeyCode::Char(c) => if c == 'c' && k.modifiers.has(CONTROL_BIT) {
            Edit::Interrupt
        } else if plain || k.modifiers.bits == SHIFT_BIT {
            Edit::Insert(c)
        } else {
            Edit::Nothing
        },
        _ => Edit::Nothing,
    }
}

/// Classifies a key: Enter completes, Backspace deletes, the arrows move,
/// Ctrl+C interrupts, a character alone or with Shift is typed.
pub fn classify(k: KeyEvent) -> (r: Edit)
    ensures
        r == edit_of(k),
{
    let plain = k.modifiers.bits == 0;
    match k.code {
        KeyCode::Enter => if plain { Edit::Complete } else { Edit::Nothing },
        KeyCode::Backspace => if plain { Edit::DeleteBack } else { Edit::Nothing },
        KeyCode::Left => if plain { Edit::MoveLeft } else { Edit::Nothing },
        KeyCode::Right => if plain { Edit::MoveRight } else { Edit::Nothing },
        KeyCode::Char(c) => if c == 'c' && k.modifiers.contains(CONTROL_BIT) {
            Edit::Interrupt
        } else if plain || k.modifiers.bits == SHIFT_BIT {
            Edit::Insert(c)
        } else {
            Edit::Nothing
        },
        _ => Edit::Nothing,
    }
}

/// The fixed part of a session.
pub struct Settings {
    pub echo: bool,
    /// Where the editable text starts, right after the prompt.
    pub origin: (u16, u16),
    pub line_length: u16,
    pub ignored: Seq<(KeyCode, KeyModifiers)>,
}

/// The text, the cursor as an index into it, and the status.
pub struct EditState {
    pub buffer: Seq<char>,
    pub cursor: nat,
    pub status: Status,
}

pub open spec fn initial_state() -> EditState {
    EditState { buffer: Seq::empty(), cursor: 0, status: Status::Editing }
}

/// How many characters fit between the origin and the last column.
pub open spec fn capacity(st: Settings) -> nat {
    (u16::MAX - st.origin.0) as nat
}

/// The cursor stands inside the text, and the text ends on a column.
pub open spec fn state_wf(s: EditState, st: Settings) -> bool {
    s.cursor <= s.buffer.len() <= capacity(st)
}

/// The screen column of the cursor.
pub open spec fn cursor_column(s: EditState, st: Settings) -> int {
    st.origin.0 + s.cursor
}

pub open spec fn ignores(st: Settings, k: KeyEvent) -> bool {
    exists|i: int| 0 <= i < st.ignored.len() && st.ignored[i] == (k.code, k.modifiers)
}

/// The state after an edit. A character that would run past the last column
/// is not taken.
pub open spec fn apply_edit(s: EditState, e: Edit, st: Settings) -> EditState {
    match e {
        Edit::Complete => EditState { status: Status::Completed, ..s },
        Edit::Interrupt => EditState { status: Status::Interrupted, ..s },
        Edit::DeleteBack => if s.cursor > 0 {
            EditState {
                buffer: s.buffer.remove(s.cursor - 1),
                cursor: (s.cursor - 1) as nat,
                status: s.status,
            }
        } else {
            s
        },
        Edit::MoveLeft => if s.cursor > 0 {
            EditState { cursor: (s.cursor - 1) as nat, ..s }
        } else {
            s
        },
        Edit::MoveRight => if s.cursor < s.buffer.len() {
            EditState { cursor: s.cursor + 1, ..s }
        } else {
            s
        },
        Edit::Insert(c) => if s.buffer.len() < capacity(st) {
            EditState {
                buffer: s.buffer.insert(s.cursor as int, c),
                cursor: s.cursor + 1,
                status: s.status,
            }
        } else {
            s
        },
        Edit::Nothing => s,
    }
}

/// The state after one event. A session that has ended takes no more events;
/// an ignored key does nothing.
pub open spec fn step(s: EditState, ev: Event, st: Settings) -> EditState {
    if s.status != Status::Editing {
        s
    } else {
        match ev {
            Event::EndOfInput => EditState { status: Status::Closed, ..s },
            Event::Other => s,
            Event::Key(k) => if ignores(st, k) {
                s
            } else {
                apply_edit(s, edit_of(k), st)
            },
        }
    }
}

/// The state after a list of events, in order.
pub open spec fn run(s: EditState, evs: Seq<Event>, st: Settings) -> EditState
    decreases evs.len(),
{
    if evs.len() == 0 {
        s
    } else {
        step(run(s, evs.drop_last(), st), evs.last(), st)
    }
}

/// Clearing the line and writing `buffer` again; nothing when not echoing.
pub open spec fn redraw_view(buffer: Seq<char>, st: Settings, term_width: u16) -> Seq<CommandView> {
    if st.echo {
        clear_view(
            st.origin.0 as int,
            st.origin.1 as int,
            clear_width(st.line_length, term_width, st.origin.0),
        ) + reprint_view(buffer, (st.origin.0 as int, st.origin.1 as int), true)
    } else {
        seq![]
    }
}

/// What one event sends to the terminal: a changed text is redrawn, then the
/// cursor is put in its place and the output flushed; a moved cursor is put in
/// its place; anything else sends nothing.
pub open spec fn outputs(s: EditState, ev: Event, st: Settings, term_width: u16) -> Seq<CommandView> {
    let t = step(s, ev, st);
    let place = seq![
        CommandView::MoveTo(cursor_column(t, st), st.origin.1 as int),
        CommandView::Flush,
    ];
    if t.buffer != s.buffer {
        redraw_view(t.buffer, st, term_width) + place
    } else if t.cursor != s.cursor {
        place
    } else {
        seq![]
    }
}

/// What a list of events sends to the terminal, in order.
pub open spec fn run_outputs(s: EditState, evs: Seq<Event>, st: Settings, term_width: u16) -> Seq<
    CommandView,
>
    decreases evs.len(),
{
    if evs.len() == 0 {
        seq![]
    } else {
        run_outputs(s, evs.drop_last(), st, term_width) + outputs(
            run(s, evs.drop_last(), st),
            evs.last(),
            st,
            term_width,
        )
    }
}

/// What a session hands back: nothing while editing, the line once completed,
/// and the matching error once interrupted or closed.
pub open spec fn outcome_of(s: EditState, r: Option<Result<String, ReadlineError>>) -> bool {
    match s.status {
        Status::Editing => r is None,
        Status::Completed => r matches Some(Ok(line)) && line@ == s.buffer,
        Status::Interrupted => r matches Some(Err(ReadlineError::Interrupted)),
        Status::Closed => r matches Some(Err(ReadlineError::EoF)),
    }
}

fn copy_pairs(v: &Vec<(KeyCode, KeyModifiers)>) -> (r: Vec<(KeyCode, KeyModifiers)>)
    ensures
        r@ == v@,
{
    let mut r: Vec<(KeyCode, KeyModifiers)> = Vec::new();
    let mut i: usize = 0;
    while i < v.len()
        invariant
            i <= v@.len(),
            r@ == v@.take(i as int),
        decreases v@.len() - i,
    {
        r.push(v[i]);
        i = i + 1;
        assert(r@ =~= v@.take(i as int));
    }
    assert(v@.take(i as int) =~= v@);
    r
}

/// One editing session.
pub struct LineEditor {
    echo: bool,
    origin: (u16, u16),
    line_length: u16,
    ignored: Vec<(KeyCode, KeyModifiers)>,
    buffer: Vec<char>,
    cursor: usize,
    status: Status,
}

impl View for LineEditor {
    type V = EditState;

    closed spec fn view(&self) -> EditState {
        EditState { buffer: self.buffer@, cursor: self.cursor as nat, status: self.status }
    }
}

impl LineEditor {
    pub closed spec fn settings(&self) -> Settings {
        Settings {
            echo: self.echo,
            origin: self.origin,
            line_length: self.line_length,
            ignored: self.ignored@,
        }
    }

    pub closed spec fn wf(&self) -> bool {
        state_wf(self@, self.settings())
    }

    /// Starts a session for `config` whose text begins at `origin`.
    pub fn new(config: &Readline, origin: (u16, u16)) -> (r: LineEditor)
        ensures
            r.wf(),
            r@ == initial_state(),
            r.settings() == (Settings {
                echo: config.echo,
                origin,
                line_length: config.line_length,
                ignored: config.ignored_keys@,
            }),
    {
        LineEditor {
            echo: config.echo,
            origin,
            line_length: config.line_length,
            ignored: copy_pairs(&config.ignored_keys),
            buffer: Vec::new(),
            cursor: 0,
            status: Status::Editing,
        }
    }

    fn is_ignored(&self, k: KeyEvent) -> (r: bool)
        ensures
            r == ignores(self.settings(), k),
    {
        let mut i: usize = 0;
        while i < self.ignored.len()
            invariant
                i <= self.ignored@.len(),
                forall|j: int|
                    0 <= j < i ==> #[trigger] self.ignored@[j] != (k.code, k.modifiers),
            decreases self.ignored@.len() - i,
        {
            let pair = self.ignored[i];
            if pair.0 == k.code && pair.1 == k.modifiers {
                assert(self.settings().ignored[i as int] == (k.code, k.modifiers));
                return true;
            }
            i = i + 1;
        }
        false
    }

    fn redraw(&self, term_width: u16, out: &mut Vec<TermCommand>)
        requires
            self.echo,
        ensures
            views(final(out)@) == views(old(out)@) + redraw_view(
                self.buffer@,
                self.settings(),
                term_width,
            ),
    {
        let width = clear_width_for(self.line_length, term_width, self.origin.0);
        let mut cmds = clear_from(self.origin.0, self.origin.1, width);
        let mut printed = reprint(&self.buffer, self.origin, true);
        cmds.append(&mut printed);
        let ghost before = out@;
        out.append(&mut cmds);
        assert(views(out@) =~= views(before) + redraw_view(
            self.buffer@,
            self.settings(),
            term_width,
        ));
    }

    fn place_cursor(&self, out: &mut Vec<TermCommand>)
        requires
            self.wf(),
        ensures
            views(final(out)@) == views(old(out)@) + seq![
                CommandView::MoveTo(cursor_column(self@, self.settings()), self.origin.1 as int),
                CommandView::Flush,
            ],
    {
        let ghost before = out@;
        out.push(TermCommand::MoveTo(self.origin.0 + self.cursor as u16, self.origin.1));
        out.push(TermCommand::Flush);
        assert(views(out@) =~= views(before) + seq![
            CommandView::MoveTo(cursor_column(self@, self.settings()), self.origin.1 as int),
            CommandView::Flush,
        ]);
    }

    /// Takes one event: updates the text, the cursor and the status as `step`
    /// says, and appends to `out` what the terminal must be sent.
    pub fn handle_event(&mut self, ev: Event, term_width: u16, out: &mut Vec<TermCommand>)
        requires
            old(self).wf(),
        ensures
            final(self).wf(),
            final(self).settings() == old(self).settings(),
            final(self)@ == step(old(self)@, ev, old(self).settings()),
            views(final(out)@) == views(old(out)@) + outputs(
                old(self)@,
                ev,
                old(self).settings(),
                term_width,
            ),
    {
        let ghost s0 = self@;
        let ghost o0 = out@;
        if self.status != Status::Editing {
            assert(views(out@) =~= views(o0) + seq![]);
            return ;
        }
        match ev {
            Event::EndOfInput => {
                self.status = Status::Closed;
                assert(self@.buffer =~= s0.buffer);
                assert(views(out@) =~= views(o0) + seq![]);
            },
            Event::Other => {
                assert(views(out@) =~= views(o0) + seq![]);
            },
            Event::Key(k) => {
                if self.is_ignored(k) {
                    assert(views(out@) =~= views(o0) + seq![]);
                    return ;
                }
                match classify(k) {
                    Edit::Complete => {
                        self.status = Status::Completed;
                        assert(views(out@) =~= views(o0) + seq![]);
                    },
                    Edit::Interrupt => {
                        self.status = Status::Interrupted;
                        assert(views(out@) =~= views(o0) + seq![]);
                    },
                    Edit::Nothing => {
                        assert(views(out@) =~= views(o0) + seq![]);
                    },
                    Edit::DeleteBack => {
                        if self.cursor > 0 {
                            self.buffer.remove(self.cursor - 1);
                            self.cursor = self.cursor - 1;
                            assert(self@.buffer.len() != s0.buffer.len());
                            if self.echo {
                                self.redraw(term_width, out);
                            }
                            let ghost o1 = out@;
                            self.place_cursor(out);
                            assert(views(out@) =~= views(o0) + outputs(
                                s0,
                                ev,
                                self.settings(),
                                term_width,
                            ));
                        } else {
                            assert(views(out@) =~= views(o0) + seq![]);
                        }
                    },
                    Edit::MoveLeft => {
                        if self.cursor > 0 {
                            self.cursor = self.cursor - 1;
                            self.place_cursor(out);
                        } else {
                            assert(views(out@) =~= views(o0) + seq![]);
                        }
                    },
                    Edit::MoveRight => {
                        if self.cursor < self.buffer.len() {
                            self.cursor = self.cursor + 1;
                            self.place_cursor(out);
                        } else {
                            assert(views(out@) =~= views(o0) + seq![]);
                        }
                    },
                    Edit::Insert(c) => {
                        if self.buffer.len() < (u16::MAX - self.origin.0) as usize {
                            self.buffer.insert(self.cursor, c);
                            self.cursor = self.cursor + 1;
                            assert(self@.buffer.len() != s0.buffer.len());
                            if self.echo {
                                self.redraw(term_width, out);
                            }
                            self.place_cursor(out);
                            assert(views(out@) =~= views(o0) + outputs(
                                s0,
                                ev,
                                self.settings(),
                                term_width,
                            ));
                        } else {
                            assert(views(out@) =~= views(o0) + seq![]);
                        }
                    },
                }
            },
        }
    }

    /// Where the session stands.
    pub fn status(&self) -> (r: Status)
        ensures
            r == self@.status,
    {
        self.status
    }

    /// The text typed so far.
    pub fn line(&self) -> (r: String)
        ensures
            r@ == self@.buffer,
    {
        string_of(&self.buffer)
    }

    /// The screen column of the cursor.
    pub fn cursor_column(&self) -> (r: u16)
        requires
            self.wf(),
        ensures
            r == cursor_column(self@, self.settings()),
    {
        self.origin.0 + self.cursor as u16
    }

    /// The line once completed, the error once interrupted or closed, and
    /// nothing while editing goes on.
    pub fn outcome(&self) -> (r: Option<Result<String, ReadlineError>>)
        ensures
            outcome_of(self@, r),
    {
        match self.status {
            Status::Editing => None,
            Status::Completed => Some(Ok(string_of(&self.buffer))),
            Status::Interrupted => Some(Err(ReadlineError::Interrupted)),
            Status::Closed => Some(Err(ReadlineError::EoF)),
        }
    }
}

/// Unedited reading: Enter finishes the line and a character key adds its
/// character, whatever the modifiers; any other key does nothing. Returns
/// whether the line is finished.
pub fn accept_plain_key(line: &mut Vec<char>, code: KeyCode) -> (done: bool)
    ensures
        done == (code == KeyCode::Enter),
        final(line)@ == (match code {
            KeyCode::Char(c) => old(line)@.push(c),
            _ => old(line)@,
        }),
{
    match code {
        KeyCode::Enter => true,
        KeyCode::Char(c) => {
            line.push(c);
            false
        },
        _ => false,
    }
}

/// The character of a character key; nothing for any other key.
pub fn char_of_key(code: KeyCode) -> (r: Option<char>)
    ensures
        r == (match code {
            KeyCode::Char(c) => Some(c),
            _ => None,
        }),
{
    match code {
        KeyCode::Char(c) => Some(c),
        _ => None,
    }
}

/// The settings that `config` gives a session whose text starts at `origin`.
pub open spec fn settings_of(config: &Readline, origin: (u16, u16)) -> Settings {
    Settings {
        echo: config.echo,
        origin,
        line_length: config.line_length,
        ignored: config.ignored_keys@,
    }
}

/// Runs a whole session over `events` on a terminal `term_width` columns
/// wide: the outcome is that of the state the events lead to, and the
/// commands are those that each event sends, in order.
pub fn edit_line(config: &Readline, origin: (u16, u16), term_width: u16, events: &Vec<Event>) -> (r: (
    Option<Result<String, ReadlineError>>,
    Vec<TermCommand>,
))
    ensures
        outcome_of(run(initial_state(), events@, settings_of(config, origin)), r.0),
        views(r.1@) == run_outputs(
            initial_state(),
            events@,
            settings_of(config, origin),
            term_width,
        ),
{
    let ghost st = settings_of(config, origin);
    let mut editor = LineEditor::new(config, origin);
    let mut out: Vec<TermCommand> = Vec::new();
    let mut i: usize = 0;
    assert(views(out@) =~= seq![]);
    while i < events.len()
        invariant
            i <= events@.len(),
            editor.wf(),
            editor.settings() == st,
            editor@ == run(initial_state(), events@.take(i as int), st),
            views(out@) == run_outputs(initial_state(), events@.take(i as int), st, term_width),
        decreases events@.len() - i,
    {
        editor.handle_event(events[i], term_width, &mut out);
        i = i + 1;
        assert(events@.take(i as int).drop_last() =~= events@.take(i - 1));
    }
    assert(events@.take(i as int) =~= events@);
    (editor.outcome(), out)
}

/// A plain key press.
pub open spec fn plain_key(code: KeyCode) -> Event {
    Event::Key(KeyEvent { code, modifiers: KeyModifiers { bits: 0 } })
}

/// Whether `ev` types a character: a key that is not ignored and asks for
/// an insertion.
pub open spec fn is_typing(ev: Event, st: Settings) -> bool {
    &&& ev is Key
    &&& edit_of(ev->Key_0) is Insert
    &&& !ignores(st, ev->Key_0)
}

/// The character that a typing event types.
pub open spec fn typed_char(ev: Event) -> char {
    match ev {
        Event::Key(k) => match edit_of(k) {
            Edit::Insert(c) => c,
            _ => ' ',
        },
        _ => ' ',
    }
}

/// The characters that a list of typing events types, in order.
pub open spec fn typed_text(evs: Seq<Event>) -> Seq<char>
    decreases evs.len(),
{
    if evs.len() == 0 {
        seq![]
    } else {
        typed_text(evs.drop_last()).push(typed_char(evs.last()))
    }
}

proof fn lemma_no_bits_set(bit: u8)
    requires
        bit != 0,
    ensures
        (0u8 & bit) != bit,
{
    assert((0u8 & bit) == 0) by (bit_vector);
}

/// One event keeps the cursor inside the text and the text within the line.
pub proof fn lemma_step_wf(s: EditState, ev: Event, st: Settings)
    requires
        state_wf(s, st),
    ensures
        state_wf(step(s, ev, st), st),
{
}

/// Navigation is clamped: whatever the events, the cursor column never falls
/// left of the origin nor right of the end of the text.
pub proof fn lemma_cursor_clamped(evs: Seq<Event>, st: Settings)
    ensures
        state_wf(run(initial_state(), evs, st), st),
        st.origin.0 <= cursor_column(run(initial_state(), evs, st), st) <= st.origin.0 + run(
            initial_state(),
            evs,
            st,
        ).buffer.len(),
    decreases evs.len(),
{
    if evs.len() > 0 {
        lemma_cursor_clamped(evs.drop_last(), st);
        lemma_step_wf(run(initial_state(), evs.drop_last(), st), evs.last(), st);
    }
}

/// Backspace on an empty line is a no-op: after any events that leave the
/// text empty, a Backspace keeps it empty, keeps the cursor at the origin and
/// sends nothing.
pub proof fn lemma_backspace_on_empty_line(evs: Seq<Event>, st: Settings, term_width: u16)
    requires
        run(initial_state(), evs, st).buffer.len() == 0,
    ensures
        run(initial_state(), evs.push(plain_key(KeyCode::Backspace)), st) == run(
            initial_state(),
            evs,
            st,
        ),
        cursor_column(run(initial_state(), evs.push(plain_key(KeyCode::Backspace)), st), st)
            == st.origin.0,
        outputs(run(initial_state(), evs, st), plain_key(KeyCode::Backspace), st, term_width)
            == Seq::<CommandView>::empty(),
{
    lemma_cursor_clamped(evs, st);
    assert(evs.push(plain_key(KeyCode::Backspace)).drop_last() =~= evs);
}

/// Once a session has ended, no event changes it.
pub proof fn lemma_ended_session_is_final(s: EditState, evs: Seq<Event>, st: Settings)
    requires
        s.status != Status::Editing,
    ensures
        run(s, evs, st) == s,
    decreases evs.len(),
{
    if evs.len() > 0 {
        lemma_ended_session_is_final(s, evs.drop_last(), st);
    }
}

/// Ctrl+C interrupts whatever the text holds: the session ends as
/// interrupted, stays so whatever follows, and hands back
/// `Err(Interrupted)`, never a line.
pub proof fn lemma_ctrl_c_interrupts(
    s: EditState,
    modifiers: KeyModifiers,
    later: Seq<Event>,
    st: Settings,
    r: Option<Result<String, ReadlineError>>,
)
    requires
        s.status == Status::Editing,
        modifiers.has(CONTROL_BIT),
        !ignores(st, KeyEvent { code: KeyCode::Char('c'), modifiers }),
    ensures
        ({
            let t = run(
                step(s, Event::Key(KeyEvent { code: KeyCode::Char('c'), modifiers }), st),
                later,
                st,
            );
            &&& t.status == Status::Interrupted
            &&& outcome_of(t, r) ==> r matches Some(Err(ReadlineError::Interrupted))
        }),
{
    let t = step(s, Event::Key(KeyEvent { code: KeyCode::Char('c'), modifiers }), st);
    lemma_ended_session_is_final(t, later, st);
}

/// Typing characters with no navigation builds exactly the characters typed,
/// in the order of the events, with the cursor after the last; Enter then
/// completes the line with them.
pub proof fn lemma_typing_builds_line(evs: Seq<Event>, st: Settings)
    requires
        evs.len() <= capacity(st),
        forall|i: int| 0 <= i < evs.len() ==> is_typing(#[trigger] evs[i], st),
        !ignores(st, KeyEvent { code: KeyCode::Enter, modifiers: KeyModifiers { bits: 0 } }),
    ensures
        typed_text(evs).len() == evs.len(),
        run(initial_state(), evs, st) == (EditState {
            buffer: typed_text(evs),
            cursor: evs.len(),
            status: Status::Editing,
        }),
        run(initial_state(), evs.push(plain_key(KeyCode::Enter)), st) == (EditState {
            buffer: typed_text(evs),
            cursor: evs.len(),
            status: Status::Completed,
        }),
    decreases evs.len(),
{
    if evs.len() > 0 {
        let p = evs.drop_last();
        assert forall|i: int| 0 <= i < p.len() implies is_typing(#[trigger] p[i], st) by {
            assert(p[i] == evs[i]);
        }
        lemma_typing_builds_line(p, st);
        let t = typed_text(p);
        let ev = evs.last();
        assert(is_typing(evs[evs.len() - 1], st));
        let c = typed_char(ev);
        assert(edit_of(ev->Key_0) == Edit::Insert(c));
        assert(evs.drop_last() == p);
        assert(t.insert(t.len() as int, c) =~= typed_text(evs));
        assert(step(run(initial_state(), p, st), ev, st) == (EditState {
            buffer: typed_text(evs),
            cursor: evs.len(),
            status: Status::Editing,
        }));
    } else {
        assert(typed_text(evs) =~= Seq::<char>::empty());
    }
    assert(evs.push(plain_key(KeyCode::Enter)).drop_last() =~= evs);
}

} // verus!
