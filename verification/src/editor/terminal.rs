//! The terminal as a record of commands.
//!
//! Drawing goes into the device's output buffer and becomes visible with the
//! next [`Command::Flush`], so that a frame appears at once.

use vstd::prelude::*;

verus! {

/// A screen cell: column and row, both counted from zero.
#[derive(Clone, Copy, Debug, PartialEq, Eq, Structural)]
pub struct Position {
    pub col: usize,
    pub row: usize,
}

impl Default for Position {
    fn default() -> (position: Position)
        ensures
            position.col == 0,
            position.row == 0,
    {
        Position { col: 0, row: 0 }
    }
}

/// The dimensions of the screen in cells. Either may be zero.
#[derive(Clone, Copy, Debug, PartialEq, Eq, Structural)]
pub struct Size {
    pub height: usize,
    pub width: usize,
}

impl Default for Size {
    fn default() -> (size: Size)
        ensures
            size.height == 0,
            size.width == 0,
    {
        Size { height: 0, width: 0 }
    }
}

/// One operation on the host terminal.
///
/// A driver performs the commands of a [`Terminal`] in the order in which they
/// were recorded: all but [`Command::EnableRawMode`],
/// [`Command::DisableRawMode`] and [`Command::Flush`] go into the device's
/// output buffer, and `Flush` makes what is buffered visible.
#[derive(Debug, PartialEq, Eq)]
pub enum Command {
    EnableRawMode,
    DisableRawMode,
    EnterAlternateScreen,
    LeaveAlternateScreen,
    ClearScreen,
    ClearLine,
    HideCaret,
    ShowCaret,
    MoveCaretTo { col: u16, row: u16 },
    Print(String),
    Flush,
}

/// What a [`Command`] stands for in contracts: the same operation, with the
/// printed text as a sequence of characters.
pub enum Effect {
    EnableRawMode,
    DisableRawMode,
    EnterAlternateScreen,
    LeaveAlternateScreen,
    ClearScreen,
    ClearLine,
    HideCaret,
    ShowCaret,
    MoveCaretTo { col: u16, row: u16 },
    Print(Seq<char>),
    Flush,
}

impl View for Command {
    type V = Effect;

    open spec fn view(&self) -> Effect {
        match *self {
            Command::EnableRawMode => Effect::EnableRawMode,
            Command::DisableRawMode => Effect::DisableRawMode,
            Command::EnterAlternateScreen => Effect::EnterAlternateScreen,
            Command::LeaveAlternateScreen => Effect::LeaveAlternateScreen,
            Command::ClearScreen => Effect::ClearScreen,
            Command::ClearLine => Effect::ClearLine,
            Command::HideCaret => Effect::HideCaret,
            Command::ShowCaret => Effect::ShowCaret,
            Command::MoveCaretTo { col, row } => Effect::MoveCaretTo { col, row },
            Command::Print(text) => Effect::Print(text@),
            Command::Flush => Effect::Flush,
        }
    }
}

/// The effects that a sequence of commands stands for, in the same order.
pub open spec fn effects(commands: Seq<Command>) -> Seq<Effect> {
    commands.map_values(|command: Command| command@)
}

/// The coordinate that reaches the device for `coordinate`: the device
/// addresses 65536 rows and columns, and a larger value loses its high bits.
pub open spec fn truncated(coordinate: usize) -> u16 {
    (coordinate % 0x1_0000) as u16
}

/// The effects of drawing `text` on screen row `row`: go to the start of the
/// row, wipe it, print.
pub open spec fn row_effects(row: usize, text: Seq<char>) -> Seq<Effect> {
    seq![
        Effect::MoveCaretTo { col: 0, row: truncated(row) },
        Effect::ClearLine,
        Effect::Print(text),
    ]
}

/// The effects of entering a session.
pub open spec fn initialize_effects() -> Seq<Effect> {
    seq![
        Effect::EnableRawMode,
        Effect::EnterAlternateScreen,
        Effect::ClearScreen,
        Effect::Flush,
    ]
}

/// The effects of leaving a session.
pub open spec fn terminate_effects() -> Seq<Effect> {
    seq![
        Effect::LeaveAlternateScreen,
        Effect::ShowCaret,
        Effect::Flush,
        Effect::DisableRawMode,
    ]
}

/// The state of a [`Terminal`] in contracts.
pub struct TerminalState {
    /// Whether raw mode was asked for and not yet given up.
    pub raw_mode: bool,
    /// What was recorded since the driver last took the commands.
    pub queue: Seq<Effect>,
}

impl TerminalState {
    /// The state after one more effect was recorded.
    pub open spec fn with(self, effect: Effect) -> TerminalState {
        TerminalState { raw_mode: self.raw_mode, queue: self.queue.push(effect) }
    }

    /// The state after `more` was recorded.
    pub open spec fn with_all(self, more: Seq<Effect>) -> TerminalState {
        TerminalState { raw_mode: self.raw_mode, queue: self.queue + more }
    }
}

/// The terminal as the core sees it: a record of the operations asked of the
/// device, and whether the device is in raw mode on the core's account.
pub struct Terminal {
    raw_mode: bool,
    queue: Vec<Command>,
}

impl View for Terminal {
    type V = TerminalState;

    closed spec fn view(&self) -> TerminalState {
        TerminalState { raw_mode: self.raw_mode, queue: effects(self.queue@) }
    }
}

impl Terminal {
    /// A terminal in its normal mode, with nothing recorded.
    pub fn new() -> (terminal: Terminal)
        ensures
            terminal@ == (TerminalState { raw_mode: false, queue: Seq::empty() }),
    {
        let terminal = Terminal { raw_mode: false, queue: Vec::new() };
        assert(terminal@.queue =~= Seq::empty());
        terminal
    }

    /// Enters a session: raw mode, the alternate screen, a cleared screen, all
    /// made visible at once.
    pub fn initialize(&mut self)
        ensures
            final(self)@ == (TerminalState {
                raw_mode: true,
                queue: old(self)@.queue + initialize_effects(),
            }),
    {
        self.raw_mode = true;
        self.queue_command(Command::EnableRawMode);
        self.enter_alternate_screen();
        self.clear_screen();
        self.execute();
        assert(self@.queue =~= old(self)@.queue + initialize_effects());
    }

    /// Leaves a session: back to the main screen with a visible caret, then
    /// out of raw mode.
    pub fn terminate(&mut self)
        ensures
            final(self)@ == (TerminalState {
                raw_mode: false,
                queue: old(self)@.queue + terminate_effects(),
            }),
    {
        self.leave_alternate_screen();
        self.show_caret();
        self.execute();
        self.queue_command(Command::DisableRawMode);
        self.raw_mode = false;
        assert(self@.queue =~= old(self)@.queue + terminate_effects());
    }

    pub fn clear_screen(&mut self)
        ensures
            final(self)@ == old(self)@.with(Effect::ClearScreen),
    {
        self.queue_command(Command::ClearScreen);
    }

    pub fn clear_line(&mut self)
        ensures
            final(self)@ == old(self)@.with(Effect::ClearLine),
    {
        self.queue_command(Command::ClearLine);
    }

    pub fn enter_alternate_screen(&mut self)
        ensures
            final(self)@ == old(self)@.with(Effect::EnterAlternateScreen),
    {
        self.queue_command(Command::EnterAlternateScreen);
    }

    pub fn leave_alternate_screen(&mut self)
        ensures
            final(self)@ == old(self)@.with(Effect::LeaveAlternateScreen),
    {
        self.queue_command(Command::LeaveAlternateScreen);
    }

    /// Prints `string` at the caret, with no line break added.
    pub fn print(&mut self, string: &str)
        ensures
            final(self)@ == old(self)@.with(Effect::Print(string@)),
    {
        self.queue_command(Command::Print(string.to_owned()));
    }

    /// Draws one screen row: whatever the row showed is replaced by
    /// `line_text`.
    pub fn print_row(&mut self, row: usize, line_text: &str)
        ensures
            final(self)@ == old(self)@.with_all(row_effects(row, line_text@)),
    {
        self.move_caret_to(Position { col: 0, row });
        self.clear_line();
        self.print(line_text);
        assert(self@.queue =~= old(self)@.queue + row_effects(row, line_text@));
    }

    pub fn hide_caret(&mut self)
        ensures
            final(self)@ == old(self)@.with(Effect::HideCaret),
    {
        self.queue_command(Command::HideCaret);
    }

    pub fn show_caret(&mut self)
        ensures
            final(self)@ == old(self)@.with(Effect::ShowCaret),
    {
        self.queue_command(Command::ShowCaret);
    }

    /// Moves the caret to `position`, each coordinate cut down to what the
    /// device can address.
    pub fn move_caret_to(&mut self, position: Position)
        ensures
            final(self)@ == old(self)@.with(
                Effect::MoveCaretTo { col: truncated(position.col), row: truncated(position.row) },
            ),
    {
        let col: u16 = (position.col % 0x1_0000) as u16;
        let row: u16 = (position.row % 0x1_0000) as u16;
        self.queue_command(Command::MoveCaretTo { col, row });
    }

    /// The size of a device that reports `columns` by `rows` cells.
    pub fn size(columns: u16, rows: u16) -> (size: Size)
        ensures
            size.width == columns,
            size.height == rows,
    {
        Size { height: rows as usize, width: columns as usize }
    }

    /// Makes everything recorded so far visible as one batch.
    pub fn execute(&mut self)
        ensures
            final(self)@ == old(self)@.with(Effect::Flush),
    {
        self.queue_command(Command::Flush);
    }

    /// Whether the device is in raw mode on the core's account.
    pub fn is_raw_mode(&self) -> (raw_mode: bool)
        ensures
            raw_mode == self@.raw_mode,
    {
        self.raw_mode
    }

    /// Hands the recorded commands to the driver, oldest first, and starts an
    /// empty record.
    pub fn take_commands(&mut self) -> (commands: Vec<Command>)
        ensures
            effects(commands@) == old(self)@.queue,
            final(self)@ == (TerminalState { raw_mode: old(self)@.raw_mode, queue: Seq::empty() }),
    {
        let mut commands: Vec<Command> = Vec::new();
        std::mem::swap(&mut self.queue, &mut commands);
        assert(self@.queue =~= Seq::empty());
        commands
    }

    fn queue_command(&mut self, command: Command)
        ensures
            final(self)@ == old(self)@.with(command@),
    {
        self.queue.push(command);
        assert(self@.queue =~= old(self)@.queue.push(command@));
    }
}

} // verus!
