//! The document as lines of text, and how a file's contents split into
//! lines.

use vstd::prelude::*;

verus! {

/// Why the contents of a file could not be had.
#[derive(Clone, Copy, Debug, PartialEq, Eq, Structural)]
pub enum Error {
    /// There is no file at the path.
    NotFound,
    /// The file is there and could not be read.
    Io,
}

/// Where the first line of `text` ends: at its first line feed, or at its end
/// if it has none.
pub open spec fn line_end(text: Seq<char>) -> int
    decreases text.len(),
{
    if text.len() == 0 || text[0] == '\n' {
        0
    } else {
        1 + line_end(text.drop_first())
    }
}

/// A line without the carriage return that stood before its line feed.
pub open spec fn without_return(line: Seq<char>) -> Seq<char> {
    if line.len() > 0 && line.last() == '\r' {
        line.drop_last()
    } else {
        line
    }
}

/// The lines of `text`. A line ends with a line feed, or with a carriage
/// return and a line feed; neither belongs to the line. What follows the last
/// line feed is a line too, unless it is empty.
pub open spec fn split_lines(text: Seq<char>) -> Seq<Seq<char>>
    decreases text.len(),
{
    let end = line_end(text);
    if text.len() == 0 {
        Seq::empty()
    } else if 0 <= end < text.len() {
        seq![without_return(text.take(end))] + split_lines(text.skip(end + 1))
    } else {
        seq![text]
    }
}

/// The lines that a vector of strings holds, as sequences of characters.
pub open spec fn texts(lines: Seq<String>) -> Seq<Seq<char>> {
    lines.map_values(|line: String| line@)
}

/// Whether no character of `text` is a line feed.
pub open spec fn has_no_line_feed(text: Seq<char>) -> bool {
    forall|i: int| 0 <= i < text.len() ==> text[i] != '\n'
}

/// The first line of a text ends within the text, and holds no line feed.
pub proof fn lemma_line_end_is_first_line_feed(text: Seq<char>)
    ensures
        0 <= line_end(text) <= text.len(),
        has_no_line_feed(text.take(line_end(text))),
        line_end(text) < text.len() ==> text[line_end(text)] == '\n',
    decreases text.len(),
{
    if !(text.len() == 0 || text[0] == '\n') {
        let tail = text.drop_first();
        lemma_line_end_is_first_line_feed(tail);
        assert forall|i: int| 0 <= i < line_end(text) implies text.take(line_end(text))[i]
            != '\n' by {
            if i > 0 {
                assert(tail.take(line_end(tail))[i - 1] == text[i]);
            }
        }
    }
}

/// Line endings are not kept: no line of a text holds a line feed.
pub proof fn lemma_lines_hold_no_line_feed(text: Seq<char>, index: int)
    requires
        0 <= index < split_lines(text).len(),
    ensures
        has_no_line_feed(split_lines(text)[index]),
    decreases text.len(),
{
    let end = line_end(text);
    lemma_line_end_is_first_line_feed(text);
    if 0 <= end < text.len() {
        if index > 0 {
            lemma_lines_hold_no_line_feed(text.skip(end + 1), index - 1);
        }
    } else {
        assert(text.take(end) =~= text);
    }
}

proof fn lemma_line_end_after_prefix(prefix: Seq<char>, rest: Seq<char>)
    requires
        has_no_line_feed(prefix),
    ensures
        line_end(prefix + rest) == prefix.len() + line_end(rest),
    decreases prefix.len(),
{
    if prefix.len() > 0 {
        assert((prefix + rest).drop_first() =~= prefix.drop_first() + rest);
        lemma_line_end_after_prefix(prefix.drop_first(), rest);
    }
}

proof fn lemma_split_at_line_feed(line: Seq<char>, rest: Seq<char>)
    requires
        has_no_line_feed(line),
        rest.len() > 0,
        rest[0] == '\n',
    ensures
        split_lines(line + rest) == seq![without_return(line)] + split_lines(rest.drop_first()),
{
    let text = line + rest;
    lemma_line_end_after_prefix(line, rest);
    assert(text.take(line.len() as int) =~= line);
    assert(text.skip(line.len() as int + 1) =~= rest.drop_first());
}

proof fn lemma_split_last_line(line: Seq<char>)
    requires
        has_no_line_feed(line),
    ensures
        split_lines(line) == if line.len() == 0 {
            Seq::<Seq<char>>::empty()
        } else {
            seq![line]
        },
{
    lemma_line_end_after_prefix(line, Seq::empty());
}

/// The contents of a document: its lines in order, without their line
/// endings. No lines at all is a document without content, which is not the
/// same as a document of one empty line.
#[derive(Debug, PartialEq, Eq)]
pub struct Buffer {
    pub lines: Vec<String>,
}

impl View for Buffer {
    type V = Seq<Seq<char>>;

    open spec fn view(&self) -> Seq<Seq<char>> {
        texts(self.lines@)
    }
}

impl Default for Buffer {
    fn default() -> (buffer: Buffer)
        ensures
            buffer@ == Seq::<Seq<char>>::empty(),
    {
        Buffer { lines: Vec::new() }
    }
}

impl Buffer {
    /// Whether the document has no lines.
    pub fn is_empty(&self) -> (empty: bool)
        ensures
            empty == (self@.len() == 0),
    {
        self.lines.len() == 0
    }

    /// The document for what reading a file gave: the lines of its contents,
    /// or the reason why there are none.
    pub fn load(file: Result<String, Error>) -> (loaded: Result<Buffer, Error>)
        ensures
            match file {
                Ok(contents) => loaded matches Ok(buffer) && buffer@ == split_lines(contents@),
                Err(error) => loaded == Err::<Buffer, Error>(error),
            },
    {
        match file {
            Ok(contents) => Ok(Buffer { lines: lines_of(contents.as_str()) }),
            Err(error) => Err(error),
        }
    }
}

/// Taken on trust, not proved here: `String::push` of std appends `ch` to the
/// end of the string and leaves the characters before it as they were.
pub assume_specification[ String::push ](string: &mut String, ch: char)
    ensures
        final(string)@ == old(string)@.push(ch),
;

/// Splits `text` into its lines.
pub fn lines_of(text: &str) -> (lines: Vec<String>)
    ensures
        texts(lines@) == split_lines(text@),
{
    let mut lines: Vec<String> = Vec::new();
    let mut current = String::new();
    // A carriage return was read and is not yet in `current`: it belongs to
    // the line only if no line feed follows it.
    let mut held_return = false;
    assert(Seq::<char>::empty() + text@.skip(0) =~= text@);
    for ch in it: text.chars()
        invariant
            it.seq() == text@,
            has_no_line_feed(current@),
            !held_return ==> current@.len() == 0 || current@.last() != '\r',
            texts(lines@) + split_lines(
                (if held_return {
                    current@.push('\r')
                } else {
                    current@
                }) + text@.skip(it.index()),
            ) == split_lines(text@),
    {
        let ghost at = it.index();
        let ghost pending = if held_return {
            current@.push('\r')
        } else {
            current@
        };
        let ghost before = text@.skip(at);
        let ghost after = text@.skip(at + 1);
        assert(before.drop_first() =~= after);
        if ch == '\n' {
            proof {
                lemma_split_at_line_feed(pending, before);
                assert(without_return(pending) == current@);
            }
            lines.push(current);
            current = String::new();
            held_return = false;
        } else {
            if held_return {
                current.push('\r');
            }
            if ch == '\r' {
                held_return = true;
            } else {
                held_return = false;
                current.push(ch);
            }
            assert(pending.push(ch) + after =~= pending + before);
        }
    }
    if held_return {
        current.push('\r');
    }
    proof {
        lemma_split_last_line(current@);
    }
    if !current.as_str().is_empty() {
        lines.push(current);
    }
    lines
}

} // verus!
