//! The session: the caret, the events that move it, and the refresh cycle.
//!
//! A driver starts a session with [`Editor::new`], refreshes the screen once,
//! and then hands every outcome of a blocking read to [`Editor::step`] until
//! that says stop; [`Editor::close`] gives the terminal back. After each call
//! the driver performs what [`Editor::take_commands`] hands out.

pub mod event;
pub mod terminal;
pub mod view;

use event::{Event, Input, KeyCode, KeyEvent, KeyEventKind, KeyModifiers};
use terminal::{
    initialize_effects, terminate_effects, truncated, Command, Effect, Position, Size, Terminal,
    TerminalState,
};
use view::buffer::Error;
use view::{file_view, View, ViewState};
use vstd::prelude::*;
use vstd::view::View as _;

verus! {

/// The line that is printed when a session ends because the user quit.
pub const GOODBYE: &'static str = "Goodbye.\r\n";

/// Where the caret stands on the screen: column `x`, row `y`.
#[derive(Clone, Copy, Debug, PartialEq, Eq, Structural)]
pub struct Location {
    pub x: usize,
    pub y: usize,
}

impl Default for Location {
    fn default() -> (location: Location)
        ensures
            location.x == 0,
            location.y == 0,
    {
        Location { x: 0, y: 0 }
    }
}

/// The last row or column of a screen that has `cells` of them; 0 for a
/// screen that has none.
pub open spec fn last_cell(cells: usize) -> usize {
    if cells == 0 {
        0
    } else {
        (cells - 1) as usize
    }
}

/// One cell back, and no further than cell 0.
pub open spec fn step_back(cell: usize) -> usize {
    if cell == 0 {
        0
    } else {
        (cell - 1) as usize
    }
}

/// One cell on, and no further than the last of `cells` cells.
pub open spec fn step_on(cell: usize, cells: usize) -> usize {
    if cell + 1 <= last_cell(cells) {
        (cell + 1) as usize
    } else {
        last_cell(cells)
    }
}

impl Location {
    /// Whether the caret stands on a screen of `size`; on a screen without
    /// rows or columns, whether it stands at 0 there.
    pub open spec fn is_within(self, size: Size) -> bool {
        self.x <= last_cell(size.width) && self.y <= last_cell(size.height)
    }

    /// Where the caret stands after `key_code` was pressed on a screen of
    /// `size`. A key that does not move the caret leaves it where it was.
    pub open spec fn moved(self, key_code: KeyCode, size: Size) -> Location {
        match key_code {
            KeyCode::Up => Location { x: self.x, y: step_back(self.y) },
            KeyCode::Down => Location { x: self.x, y: step_on(self.y, size.height) },
            KeyCode::Left => Location { x: step_back(self.x), y: self.y },
            KeyCode::Right => Location { x: step_on(self.x, size.width), y: self.y },
            KeyCode::PageUp => Location { x: self.x, y: 0 },
            KeyCode::PageDown => Location { x: self.x, y: last_cell(size.height) },
            KeyCode::Home => Location { x: 0, y: self.y },
            KeyCode::End => Location { x: last_cell(size.width), y: self.y },
            _ => self,
        }
    }

    /// Where the caret stands after `key_code` was pressed `times` times on a
    /// screen of `size`.
    pub open spec fn moved_times(self, key_code: KeyCode, size: Size, times: nat) -> Location
        decreases times,
    {
        if times == 0 {
            self
        } else {
            self.moved_times(key_code, size, (times - 1) as nat).moved(key_code, size)
        }
    }
}

/// What the driver of a session does after a turn.
#[derive(Clone, Copy, Debug, PartialEq, Eq, Structural)]
pub enum Next {
    /// Perform what was recorded, then wait for the next input.
    Read,
    /// Perform what was recorded, then close the session.
    Stop,
}

/// The state of an [`Editor`] in contracts.
pub struct EditorState {
    pub view: ViewState,
    pub location: Location,
    /// Whether the quit chord was pressed.
    pub should_quit: bool,
    pub terminal: TerminalState,
}

impl EditorState {
    /// The state after `key_code` moved the caret on a screen of `size`.
    pub open spec fn moved(self, key_code: KeyCode, size: Size) -> EditorState {
        EditorState {
            view: self.view,
            location: self.location.moved(key_code, size),
            should_quit: self.should_quit,
            terminal: self.terminal,
        }
    }

    /// The state after `event` came in while the screen had `size`.
    ///
    /// Only a key press counts among the key events. The quit chord ends the
    /// session, a navigation key moves the caret, a resize goes to the view,
    /// and nothing else changes anything.
    pub open spec fn evaluated(self, event: Event, size: Size) -> EditorState {
        match event {
            Event::Key(key) => {
                if !(key.kind is Press) {
                    self
                } else if key.is_quit_chord() {
                    EditorState {
                        view: self.view,
                        location: self.location,
                        should_quit: true,
                        terminal: self.terminal,
                    }
                } else if key.code.is_navigation() {
                    self.moved(key.code, size)
                } else {
                    self
                }
            },
            Event::Resize(columns, rows) => EditorState {
                view: self.view.resized(Size { height: rows as usize, width: columns as usize }),
                location: self.location,
                should_quit: self.should_quit,
                terminal: self.terminal,
            },
            Event::Other => self,
        }
    }

    /// What one refresh records: the caret is hidden, the view renders, the
    /// caret goes to its location and shows again, and all of it becomes
    /// visible at once.
    pub open spec fn refresh_effects(self) -> Seq<Effect> {
        seq![Effect::HideCaret] + self.view.render_effects() + seq![
            Effect::MoveCaretTo { col: truncated(self.location.x), row: truncated(self.location.y) },
            Effect::ShowCaret,
            Effect::Flush,
        ]
    }

    /// The state after one refresh.
    pub open spec fn refreshed(self) -> EditorState {
        EditorState {
            view: self.view.rendered(),
            location: self.location,
            should_quit: self.should_quit,
            terminal: self.terminal.with_all(self.refresh_effects()),
        }
    }

    /// The state after one turn of the session loop on `input`: an event is
    /// evaluated and the screen refreshed; a failed read changes nothing.
    pub open spec fn stepped(self, input: Input) -> EditorState {
        match input {
            Input::Event(event, size) => self.evaluated(event, size).refreshed(),
            Input::Failed => self,
        }
    }

    /// What the end of the session records: the terminal is given back, and
    /// after that, if the user quit, the goodbye line is printed.
    pub open spec fn close_effects(self) -> Seq<Effect> {
        if self.should_quit {
            terminate_effects() + seq![Effect::Print(GOODBYE@), Effect::Flush]
        } else {
            terminate_effects()
        }
    }

    /// The state after the session was closed. Closing a session that is
    /// closed already changes nothing.
    pub open spec fn closed(self) -> EditorState {
        if self.terminal.raw_mode {
            EditorState {
                view: self.view,
                location: self.location,
                should_quit: self.should_quit,
                terminal: TerminalState {
                    raw_mode: false,
                    queue: self.terminal.queue + self.close_effects(),
                },
            }
        } else {
            self
        }
    }
}

/// The state in which a session starts on a screen of `size`, `file` being
/// what reading the file to show gave, if one was named.
pub open spec fn initial_state(size: Size, file: Option<Result<Seq<char>, Error>>) -> EditorState {
    let empty = ViewState { lines: Seq::empty(), size, dirty: true };
    EditorState {
        view: match file {
            Some(outcome) => empty.loaded(outcome),
            None => empty,
        },
        location: Location { x: 0, y: 0 },
        should_quit: false,
        terminal: TerminalState { raw_mode: true, queue: initialize_effects() },
    }
}

/// One editing session: the view on the document, the caret, the terminal,
/// and whether the user has quit.
pub struct Editor {
    view: View,
    should_quit: bool,
    location: Location,
    terminal: Terminal,
}

impl vstd::view::View for Editor {
    type V = EditorState;

    closed spec fn view(&self) -> EditorState {
        EditorState {
            view: self.view@,
            location: self.location,
            should_quit: self.should_quit,
            terminal: self.terminal@,
        }
    }
}

impl Editor {
    /// Starts a session on a screen of `size`: the terminal is asked to enter
    /// raw mode, the caret stands at the top left, nothing is drawn yet.
    /// `file` is what reading the file to show gave, if one was named; the
    /// session starts with an empty document if none was, or if it could not
    /// be read.
    pub fn new(size: Size, file: Option<Result<String, Error>>) -> (editor: Editor)
        ensures
            editor@ == initial_state(
                size,
                match file {
                    Some(outcome) => Some(file_view(outcome)),
                    None => None,
                },
            ),
    {
        let mut terminal = Terminal::new();
        terminal.initialize();
        let mut view = View::new(size);
        if let Some(outcome) = file {
            view.load(outcome);
        }
        Editor { should_quit: false, location: Location::default(), view, terminal }
    }

    /// Moves the caret as `key_code` says, on a screen that has `size` at the
    /// moment of the key press. The caret never leaves that screen by such a
    /// move, and comes to stand on it when the key sets the coordinate.
    pub fn move_point(&mut self, key_code: KeyCode, size: Size)
        ensures
            final(self)@ == old(self)@.moved(key_code, size),
            old(self)@.location.is_within(size) ==> final(self)@.location.is_within(size),
    {
        let Location { mut x, mut y } = self.location;
        let Size { height, width } = size;
        match key_code {
            KeyCode::Up => {
                y = y.saturating_sub(1);
            },
            KeyCode::Down => {
                y = Self::bounded(height.saturating_sub(1), y.saturating_add(1));
            },
            KeyCode::Left => {
                x = x.saturating_sub(1);
            },
            KeyCode::Right => {
                x = Self::bounded(width.saturating_sub(1), x.saturating_add(1));
            },
            KeyCode::PageUp => {
                y = 0;
            },
            KeyCode::PageDown => {
                y = height.saturating_sub(1);
            },
            KeyCode::Home => {
                x = 0;
            },
            KeyCode::End => {
                x = width.saturating_sub(1);
            },
            _ => (),
        }
        self.location = Location { x, y };
    }

    /// The smaller of `bound` and `cell`.
    fn bounded(bound: usize, cell: usize) -> (smaller: usize)
        ensures
            smaller == if cell <= bound {
                cell
            } else {
                bound
            },
    {
        if cell <= bound {
            cell
        } else {
            bound
        }
    }

    /// Takes in one event, the screen having `size` at that moment.
    pub fn evaluate_event(&mut self, event: Event, size: Size)
        ensures
            final(self)@ == old(self)@.evaluated(event, size),
    {
        match event {
            Event::Key(KeyEvent { code, modifiers, kind: KeyEventKind::Press }) => match code {
                KeyCode::Char('q') if modifiers == KeyModifiers::control() => {
                    self.should_quit = true;
                },
                KeyCode::Up
                | KeyCode::Down
                | KeyCode::Left
                | KeyCode::Right
                | KeyCode::PageUp
                | KeyCode::PageDown
                | KeyCode::Home
                | KeyCode::End => {
                    self.move_point(code, size);
                },
                _ => (),
            },
            Event::Resize(new_w, new_h) => {
                self.view.resize(Size { height: new_h as usize, width: new_w as usize });
            },
            _ => (),
        }
    }

    /// One refresh of the screen.
    pub fn refresh_screen(&mut self)
        ensures
            final(self)@ == old(self)@.refreshed(),
    {
        self.terminal.hide_caret();
        self.view.render(&mut self.terminal);
        self.terminal.move_caret_to(Position { col: self.location.x, row: self.location.y });
        self.terminal.show_caret();
        self.terminal.execute();
        assert(self@.terminal.queue =~= old(self)@.terminal.queue + old(self)@.refresh_effects());
    }

    /// One turn of the session loop, on what the blocking read gave. An event
    /// is evaluated and the screen refreshed, and the session goes on unless
    /// the user has quit. A failed read ends the session, which is not the
    /// same as quitting it.
    pub fn step(&mut self, input: Input) -> (next: Next)
        ensures
            final(self)@ == old(self)@.stepped(input),
            next == if input is Failed || final(self)@.should_quit {
                Next::Stop
            } else {
                Next::Read
            },
    {
        match input {
            Input::Event(event, size) => {
                self.evaluate_event(event, size);
                self.refresh_screen();
                if self.should_quit {
                    Next::Stop
                } else {
                    Next::Read
                }
            },
            Input::Failed => Next::Stop,
        }
    }

    /// Ends the session: gives the terminal back and, if the user quit, says
    /// goodbye. Does this once, however often it is called.
    pub fn close(&mut self)
        ensures
            final(self)@ == old(self)@.closed(),
    {
        if self.terminal.is_raw_mode() {
            self.terminal.terminate();
            if self.should_quit {
                self.terminal.print(GOODBYE);
                self.terminal.execute();
            }
            assert(self@.terminal.queue =~= old(self)@.terminal.queue + old(self)@.close_effects());
        }
    }

    /// Hands the commands recorded so far to the driver, oldest first.
    pub fn take_commands(&mut self) -> (commands: Vec<Command>)
        ensures
            terminal::effects(commands@) == old(self)@.terminal.queue,
            final(self)@ == (EditorState {
                view: old(self)@.view,
                location: old(self)@.location,
                should_quit: old(self)@.should_quit,
                terminal: TerminalState {
                    raw_mode: old(self)@.terminal.raw_mode,
                    queue: Seq::empty(),
                },
            }),
    {
        self.terminal.take_commands()
    }

    /// Whether the user has quit.
    pub fn should_quit(&self) -> (should_quit: bool)
        ensures
            should_quit == self@.should_quit,
    {
        self.should_quit
    }

    /// Where the caret stands.
    pub fn location(&self) -> (location: Location)
        ensures
            location == self@.location,
    {
        self.location
    }

    /// The view on the document.
    pub fn viewport(&self) -> (view: &View)
        ensures
            view@ == self@.view,
    {
        &self.view
    }

    /// The terminal.
    pub fn terminal(&self) -> (terminal: &Terminal)
        ensures
            terminal@ == self@.terminal,
    {
        &self.terminal
    }
}

/// Moving right. One press takes the caret to the next column, and no
/// further than the last. `times` presses, at least one, take it `times`
/// columns on and no further than the last: so the caret reaches the last
/// column, and stays there however often the key is pressed again.
pub proof fn lemma_right_moves_reach_the_last_column(location: Location, size: Size, times: nat)
    requires
        size.width > 0,
    ensures
        location.moved(KeyCode::Right, size).x == vstd::math::min(
            size.width - 1,
            location.x + 1,
        ),
        times >= 1 ==> location.moved_times(KeyCode::Right, size, times).x == vstd::math::min(
            size.width - 1,
            location.x + times,
        ),
        times >= 1 && location.x + times >= size.width - 1 ==> location.moved_times(
            KeyCode::Right,
            size,
            times,
        ).x == size.width - 1,
        location.moved_times(KeyCode::Right, size, times).y == location.y,
    decreases times,
{
    if times >= 1 {
        lemma_right_moves_reach_the_last_column(location, size, (times - 1) as nat);
    }
}

/// Moving up and down by keys that set the row. Up never takes the caret
/// above row 0, page up takes it to row 0, and page down to the last row,
/// which is row 0 on a screen without rows.
pub proof fn lemma_vertical_moves(location: Location, size: Size)
    ensures
        location.moved(KeyCode::Up, size).y >= 0,
        location.moved(KeyCode::Up, size).y == if location.y == 0 {
            0
        } else {
            location.y - 1
        },
        location.moved(KeyCode::PageUp, size).y == 0,
        location.moved(KeyCode::PageDown, size).y == if size.height == 0 {
            0
        } else {
            size.height - 1
        },
        location.moved(KeyCode::Up, size).x == location.x,
        location.moved(KeyCode::PageUp, size).x == location.x,
        location.moved(KeyCode::PageDown, size).x == location.x,
{
}

/// No move takes the caret off the screen: a caret that stands on a screen
/// of `size` stands on it after any key. A key that steps on or jumps along
/// an axis brings the caret onto the screen along that axis wherever it
/// stood before.
pub proof fn lemma_moves_stay_on_the_screen(location: Location, key_code: KeyCode, size: Size)
    ensures
        location.is_within(size) ==> location.moved(key_code, size).is_within(size),
        key_code is Right || key_code is Home || key_code is End ==> location.moved(
            key_code,
            size,
        ).x <= last_cell(size.width),
        key_code is Down || key_code is PageUp || key_code is PageDown ==> location.moved(
            key_code,
            size,
        ).y <= last_cell(size.height),
{
}

/// A session that is quit at once renders once. The first refresh draws what
/// there is to draw; the quit chord as the first event ends the session, and
/// the refresh of that turn draws no row. Closing then gives the terminal
/// back and says goodbye.
pub proof fn lemma_quit_at_once_renders_once(
    size: Size,
    file: Option<Result<Seq<char>, Error>>,
    key: KeyEvent,
    live: Size,
)
    requires
        key.is_quit_chord(),
    ensures
        ({
            let started = initial_state(size, file);
            let shown = started.refreshed();
            let quit = shown.stepped(Input::Event(Event::Key(key), live));
            let closed = quit.closed();
            &&& !started.should_quit
            &&& quit.should_quit
            &&& shown.evaluated(Event::Key(key), live).view.render_effects() == Seq::<
                Effect,
            >::empty()
            &&& quit.terminal.raw_mode
            &&& !closed.terminal.raw_mode
            &&& closed.terminal.queue == initialize_effects() + started.refresh_effects() + seq![
                Effect::HideCaret,
                Effect::MoveCaretTo { col: 0, row: 0 },
                Effect::ShowCaret,
                Effect::Flush,
            ] + terminate_effects() + seq![Effect::Print(GOODBYE@), Effect::Flush]
        }),
{
    let shown = initial_state(size, file).refreshed();
    let turned = shown.evaluated(Event::Key(key), live);
    // The first refresh has left the view clean, unless the screen has no
    // cells: either way there is nothing to draw.
    assert(turned.view.render_effects() =~= Seq::<Effect>::empty());
    assert(turned.refresh_effects() =~= seq![
        Effect::HideCaret,
        Effect::MoveCaretTo { col: 0, row: 0 },
        Effect::ShowCaret,
        Effect::Flush,
    ]);
}

} // verus!
