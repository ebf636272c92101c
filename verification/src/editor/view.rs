//! The view: which text each screen row shows, and when rows are drawn.

pub mod buffer;

use crate::editor::terminal::{row_effects, Effect, Size, Terminal};
use buffer::{split_lines, Buffer, Error};
use vstd::prelude::*;
use vstd::view::View as _;

verus! {

/// The product name on the welcome banner.
pub const NAME: &'static str = "hecto";

/// The version on the welcome banner.
pub const VERSION: &'static str = "0.1.0";

/// The welcome banner: name, a space, version.
pub open spec fn banner() -> Seq<char> {
    NAME@ + seq![' '] + VERSION@
}

/// `count` spaces.
pub open spec fn spaces(count: nat) -> Seq<char> {
    Seq::new(count, |i: int| ' ')
}

/// `text` cut down to its first `width` characters; nothing wraps.
pub open spec fn truncate(text: Seq<char>, width: usize) -> Seq<char> {
    if text.len() <= width {
        text
    } else {
        text.take(width as int)
    }
}

/// How many spaces stand between the tilde and the banner on a screen of
/// `width` columns, for a banner that is shorter than the screen is wide.
pub open spec fn banner_padding(width: usize) -> nat {
    let room = (width - banner().len() - 1) / 2;
    if room >= 1 {
        (room - 1) as nat
    } else {
        0
    }
}

/// The welcome line for a screen of `width` columns.
pub open spec fn welcome_message(width: usize) -> Seq<char> {
    if width == 0 {
        seq![' ']
    } else if width <= banner().len() {
        seq!['~']
    } else {
        truncate(seq!['~'] + spaces(banner_padding(width)) + banner(), width)
    }
}

/// What screen row `row` shows of a document on a screen of `size`: the
/// document's line of that index, cut to the screen's width; past the
/// document's end a tilde; and, for a document without lines, the welcome
/// line a third of the way down.
pub open spec fn row_text(lines: Seq<Seq<char>>, size: Size, row: int) -> Seq<char> {
    if 0 <= row < lines.len() {
        truncate(lines[row], size.width)
    } else if row == size.height / 3 && lines.len() == 0 {
        welcome_message(size.width)
    } else {
        seq!['~']
    }
}

/// The effects of drawing the first `rows` screen rows, top down.
pub open spec fn frame(lines: Seq<Seq<char>>, size: Size, rows: nat) -> Seq<Effect>
    decreases rows,
{
    if rows == 0 {
        Seq::empty()
    } else {
        frame(lines, size, (rows - 1) as nat) + row_effects(
            (rows - 1) as usize,
            row_text(lines, size, rows - 1),
        )
    }
}

/// The state of a [`View`] in contracts.
pub struct ViewState {
    /// The lines of the document.
    pub lines: Seq<Seq<char>>,
    /// The size of the screen as last told.
    pub size: Size,
    /// Whether the screen may show something else than `lines` on `size`.
    pub dirty: bool,
}

impl ViewState {
    /// Whether a render pass draws: the screen may be stale and has cells.
    pub open spec fn draws(self) -> bool {
        self.dirty && self.size.height > 0 && self.size.width > 0
    }

    /// What a render pass draws: every row of the screen, or nothing.
    pub open spec fn render_effects(self) -> Seq<Effect> {
        if self.draws() {
            frame(self.lines, self.size, self.size.height as nat)
        } else {
            Seq::empty()
        }
    }

    /// The state after a render pass: clean, if the pass drew.
    pub open spec fn rendered(self) -> ViewState {
        if self.draws() {
            ViewState { lines: self.lines, size: self.size, dirty: false }
        } else {
            self
        }
    }

    /// The state after the screen changed its size to `to`.
    pub open spec fn resized(self, to: Size) -> ViewState {
        ViewState { lines: self.lines, size: to, dirty: true }
    }

    /// The state after a file was read with the outcome `file`.
    pub open spec fn loaded(self, file: Result<Seq<char>, Error>) -> ViewState {
        match file {
            Ok(contents) => ViewState {
                lines: split_lines(contents),
                size: self.size,
                dirty: true,
            },
            Err(_) => self,
        }
    }
}

/// The outcome of reading a file, with the contents as characters.
pub open spec fn file_view(file: Result<String, Error>) -> Result<Seq<char>, Error> {
    match file {
        Ok(contents) => Ok(contents@),
        Err(error) => Err(error),
    }
}

/// The window through which the document is seen: the document, the size of
/// the screen, and whether the screen has to be drawn again.
pub struct View {
    buffer: Buffer,
    size: Size,
    should_rerender: bool,
}

impl vstd::view::View for View {
    type V = ViewState;

    closed spec fn view(&self) -> ViewState {
        ViewState { lines: self.buffer@, size: self.size, dirty: self.should_rerender }
    }
}

impl View {
    /// A view of an empty document on a screen of `size`, not yet drawn.
    pub fn new(size: Size) -> (view: View)
        ensures
            view@ == (ViewState { lines: Seq::empty(), size, dirty: true }),
    {
        View { buffer: Buffer::default(), size, should_rerender: true }
    }

    /// Takes note of the screen's new size. Rows and columns have moved, so
    /// the next render pass draws.
    pub fn resize(&mut self, to: Size)
        ensures
            final(self)@ == old(self)@.resized(to),
    {
        self.size = to;
        self.should_rerender = true;
    }

    /// Draws `line_text` on screen row `at`.
    pub fn render_line(terminal: &mut Terminal, at: usize, line_text: &str)
        ensures
            final(terminal)@ == old(terminal)@.with_all(row_effects(at, line_text@)),
    {
        terminal.print_row(at, line_text);
    }

    /// The welcome line for a screen of `width` columns: the banner behind a
    /// tilde, about centred, or less where it does not fit.
    pub fn build_welcome_message(width: usize) -> (message: String)
        ensures
            message@ == welcome_message(width),
    {
        proof {
            reveal_strlit(" ");
            reveal_strlit("~");
        }
        if width == 0 {
            return " ".to_owned();
        }
        let mut welcome = NAME.to_owned();
        welcome.append(" ");
        welcome.append(VERSION);
        let length = welcome.as_str().unicode_len();
        if width <= length {
            return "~".to_owned();
        }
        let room = (width - length - 1) / 2;
        let padding = room.saturating_sub(1);
        let mut message = "~".to_owned();
        let mut count: usize = 0;
        while count < padding
            invariant
                count <= padding,
                message@ == seq!['~'] + spaces(count as nat),
                " "@ == seq![' '],
            decreases padding - count,
        {
            message.append(" ");
            count += 1;
        }
        message.append(welcome.as_str());
        message
    }

    /// One render pass. If the screen may be stale and has cells, every row
    /// is drawn and the screen is clean afterwards; else nothing is drawn.
    pub fn render(&mut self, terminal: &mut Terminal)
        ensures
            final(self)@ == old(self)@.rendered(),
            final(terminal)@ == old(terminal)@.with_all(old(self)@.render_effects()),
    {
        assert(terminal@ == terminal@.with_all(Seq::empty()));
        if !self.should_rerender {
            return;
        }
        let Size { height, width } = self.size;
        if height == 0 || width == 0 {
            return;
        }
        let vertical_center = height / 3;
        let mut current_row: usize = 0;
        while current_row < height
            invariant
                current_row <= height,
                vertical_center == height / 3,
                width > 0,
                self.size == (Size { height, width }),
                *self == *old(self),
                terminal@ == old(terminal)@.with_all(
                    frame(self@.lines, self.size, current_row as nat),
                ),
            decreases height - current_row,
        {
            let ghost text = row_text(self@.lines, self.size, current_row as int);
            if current_row < self.buffer.lines.len() {
                let line = self.buffer.lines[current_row].as_str();
                let truncated_line = if line.unicode_len() >= width {
                    line.substring_char(0, width)
                } else {
                    line
                };
                assert(truncated_line@ =~= text);
                Self::render_line(terminal, current_row, truncated_line);
            } else if current_row == vertical_center && self.buffer.is_empty() {
                let message = Self::build_welcome_message(width);
                Self::render_line(terminal, current_row, message.as_str());
            } else {
                proof {
                    reveal_strlit("~");
                }
                assert("~"@ =~= text);
                Self::render_line(terminal, current_row, "~");
            }
            current_row += 1;
            assert(terminal@.queue =~= old(terminal)@.queue + frame(
                self@.lines,
                self.size,
                current_row as nat,
            ));
        }
        self.should_rerender = false;
    }

    /// Takes in what reading a file gave. Contents replace the document and
    /// the next render pass draws; a failure changes nothing.
    pub fn load(&mut self, file: Result<String, Error>)
        ensures
            final(self)@ == old(self)@.loaded(file_view(file)),
    {
        if let Ok(buffer) = Buffer::load(file) {
            self.buffer = buffer;
            self.should_rerender = true;
        }
    }

    /// The document.
    pub fn buffer(&self) -> (buffer: &Buffer)
        ensures
            buffer@ == self@.lines,
    {
        &self.buffer
    }

    /// The size of the screen as last told.
    pub fn size(&self) -> (size: Size)
        ensures
            size == self@.size,
    {
        self.size
    }

    /// Whether the next render pass has something to bring up to date.
    pub fn needs_render(&self) -> (dirty: bool)
        ensures
            dirty == self@.dirty,
    {
        self.should_rerender
    }
}

/// Drawing the first `rows` rows records three effects for each of them, and
/// those of row `row` stand in place `3 * row`: every row is drawn once, and
/// the rows are drawn top down.
pub proof fn lemma_frame_draws_each_row(lines: Seq<Seq<char>>, size: Size, rows: nat, row: int)
    requires
        0 <= row < rows,
    ensures
        frame(lines, size, rows).len() == 3 * rows,
        frame(lines, size, rows).subrange(3 * row, 3 * row + 3) == row_effects(
            row as usize,
            row_text(lines, size, row),
        ),
    decreases rows,
{
    let above = frame(lines, size, (rows - 1) as nat);
    let last = row_effects((rows - 1) as usize, row_text(lines, size, rows - 1));
    if rows >= 2 {
        // The rows above the last one are drawn as if they were all.
        lemma_frame_draws_each_row(lines, size, (rows - 1) as nat, if row < rows - 1 {
            row
        } else {
            0
        });
    }
    assert(above.len() == 3 * (rows - 1));
    if row < rows - 1 {
        assert((above + last).subrange(3 * row, 3 * row + 3) =~= above.subrange(
            3 * row,
            3 * row + 3,
        ));
    } else {
        assert((above + last).subrange(3 * row, 3 * row + 3) =~= last);
    }
}

/// Rendering is idempotent: a render pass that follows another, with no
/// change of state between the two, draws nothing and changes nothing.
pub proof fn lemma_second_render_draws_nothing(view: ViewState)
    ensures
        view.rendered().render_effects() == Seq::<Effect>::empty(),
        view.rendered().rendered() == view.rendered(),
{
}

/// A resize forces one full redraw, whatever the state of the view before
/// it. The render pass after a resize to a screen that has cells draws every
/// row of that screen; on a screen without cells there is nothing to draw.
/// The pass after that one draws nothing.
pub proof fn lemma_resize_forces_one_redraw(view: ViewState, to: Size)
    ensures
        view.resized(to).dirty,
        to.height > 0 && to.width > 0 ==> view.resized(to).render_effects() == frame(
            view.lines,
            to,
            to.height as nat,
        ) && view.resized(to).render_effects().len() == 3 * to.height,
        to.height == 0 || to.width == 0 ==> view.resized(to).render_effects() == Seq::<
            Effect,
        >::empty(),
        view.resized(to).rendered().render_effects() == Seq::<Effect>::empty(),
{
    if to.height > 0 && to.width > 0 {
        lemma_frame_draws_each_row(view.lines, to, to.height as nat, 0);
    }
}

/// The welcome line. On a screen without columns it is one space; on a
/// screen no wider than the banner it is a tilde. On a wider screen it is a
/// tilde, spaces, and the banner: it fits the screen, and the banner stands at
/// most one column off the middle. It fills the screen only where the screen
/// is one column wider than the banner.
pub proof fn lemma_welcome_message(width: usize)
    ensures
        width == 0 ==> welcome_message(width) == seq![' '],
        0 < width <= banner().len() ==> welcome_message(width) == seq!['~'],
        width > banner().len() ==> {
            let message = welcome_message(width);
            let left = 1 + banner_padding(width);
            let right = width - left - banner().len();
            &&& message.len() == left + banner().len()
            &&& message.len() <= width
            &&& message[0] == '~'
            &&& message.subrange(left as int, message.len() as int) == banner()
            &&& forall|i: int| 1 <= i < left ==> message[i] == ' '
            &&& -2 <= left - right <= 2
            &&& (message.len() == width <==> width == banner().len() + 1)
        },
{
    if width > banner().len() {
        let composed = seq!['~'] + spaces(banner_padding(width)) + banner();
        let left = 1 + banner_padding(width);
        // The composed line fits the screen, so cutting it to the width
        // keeps all of it.
        assert(composed.len() <= width);
        assert(composed.subrange(left as int, composed.len() as int) =~= banner());
    }
}

} // verus!
