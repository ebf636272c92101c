use hecto::editor::terminal::{Command, Size, Terminal};
use hecto::editor::view::buffer::Error;
use hecto::editor::view::{View, NAME, VERSION};

fn row(row: u16, text: &str) -> Vec<Command> {
    vec![
        Command::MoveCaretTo { col: 0, row },
        Command::ClearLine,
        Command::Print(String::from(text)),
    ]
}

fn rows(texts: &[&str]) -> Vec<Command> {
    let mut commands = Vec::new();
    for (index, text) in texts.iter().enumerate() {
        commands.extend(row(index as u16, text));
    }
    commands
}

fn render(view: &mut View) -> Vec<Command> {
    let mut terminal = Terminal::new();
    view.render(&mut terminal);
    assert!(!terminal.is_raw_mode());
    terminal.take_commands()
}

#[test]
fn banner_is_name_and_version() {
    assert_eq!(format!("{NAME} {VERSION}"), "hecto 0.1.0");
}

#[test]
fn welcome_message_without_columns_is_a_space() {
    assert_eq!(View::build_welcome_message(0), " ");
}

#[test]
fn welcome_message_on_a_narrow_screen_is_a_tilde() {
    assert_eq!(View::build_welcome_message(1), "~");
    assert_eq!(View::build_welcome_message(5), "~");
    assert_eq!(View::build_welcome_message(10), "~");
    assert_eq!(View::build_welcome_message(11), "~");
}

#[test]
fn welcome_message_just_wider_than_the_banner_has_no_padding() {
    assert_eq!(View::build_welcome_message(12), "~hecto 0.1.0");
    assert_eq!(View::build_welcome_message(13), "~hecto 0.1.0");
    assert_eq!(View::build_welcome_message(14), "~hecto 0.1.0");
    assert_eq!(View::build_welcome_message(15), "~hecto 0.1.0");
}

#[test]
fn welcome_message_is_padded_on_the_left() {
    assert_eq!(View::build_welcome_message(16), "~ hecto 0.1.0");
    assert_eq!(View::build_welcome_message(17), "~ hecto 0.1.0");
    assert_eq!(View::build_welcome_message(18), "~  hecto 0.1.0");
    assert_eq!(View::build_welcome_message(20), "~   hecto 0.1.0");
}

#[test]
fn welcome_message_on_a_wide_screen() {
    let message = View::build_welcome_message(80);
    let expected = format!("~{}hecto 0.1.0", " ".repeat(33));
    assert_eq!(message, expected);
    assert_eq!(message.chars().count(), 45);
}

#[test]
fn welcome_message_is_about_centred() {
    for width in 12usize..200 {
        let message = View::build_welcome_message(width);
        let length = message.chars().count();
        assert!(message.starts_with('~'), "width {width}");
        assert!(message.ends_with("hecto 0.1.0"), "width {width}");
        assert!(length <= width, "width {width}");
        let left = length - 11;
        let right = width - length;
        assert!(left <= right + 2 && right <= left + 2, "width {width}");
        assert_eq!(length == width, width == 12, "width {width}");
    }
}

#[test]
fn new_view_is_empty_and_dirty() {
    let view = View::new(Size { height: 24, width: 80 });
    assert!(view.buffer().is_empty());
    assert!(view.needs_render());
    assert_eq!(view.size(), Size { height: 24, width: 80 });
}

#[test]
fn render_of_an_empty_document_shows_the_banner() {
    let mut view = View::new(Size { height: 6, width: 20 });
    assert_eq!(
        render(&mut view),
        rows(&["~", "~", "~   hecto 0.1.0", "~", "~", "~"])
    );
    assert!(!view.needs_render());
}

#[test]
fn render_puts_the_banner_a_third_down() {
    let mut view = View::new(Size { height: 2, width: 40 });
    let banner = View::build_welcome_message(40);
    assert_eq!(render(&mut view), rows(&[banner.as_str(), "~"]));
    let mut view = View::new(Size { height: 3, width: 40 });
    assert_eq!(render(&mut view), rows(&["~", banner.as_str(), "~"]));
    let mut view = View::new(Size { height: 1, width: 3 });
    assert_eq!(render(&mut view), rows(&["~"]));
}

#[test]
fn render_shows_lines_and_tildes() {
    let mut view = View::new(Size { height: 4, width: 20 });
    view.load(Ok(String::from("first\nsecond\n")));
    assert_eq!(render(&mut view), rows(&["first", "second", "~", "~"]));
    assert!(!view.needs_render());
}

#[test]
fn render_shows_no_banner_for_a_document_with_lines() {
    let mut view = View::new(Size { height: 3, width: 40 });
    view.load(Ok(String::from("\n")));
    assert_eq!(render(&mut view), rows(&["", "~", "~"]));
}

#[test]
fn render_truncates_long_lines() {
    let mut view = View::new(Size { height: 3, width: 5 });
    view.load(Ok(String::from("hello world\nhello\nhell")));
    assert_eq!(render(&mut view), rows(&["hello", "hello", "hell"]));
}

#[test]
fn render_truncates_by_characters() {
    let mut view = View::new(Size { height: 2, width: 3 });
    view.load(Ok(String::from("\u{e4}\u{f6}\u{fc}\u{df}\u{e9}\n\u{4e16}\u{754c}")));
    assert_eq!(
        render(&mut view),
        rows(&["\u{e4}\u{f6}\u{fc}", "\u{4e16}\u{754c}"])
    );
}

#[test]
fn render_drops_lines_below_the_screen() {
    let mut view = View::new(Size { height: 2, width: 10 });
    view.load(Ok(String::from("a\nb\nc\nd")));
    assert_eq!(render(&mut view), rows(&["a", "b"]));
}

#[test]
fn render_adds_to_what_is_recorded() {
    let mut terminal = Terminal::new();
    terminal.hide_caret();
    let mut view = View::new(Size { height: 1, width: 1 });
    view.render(&mut terminal);
    let mut expected = vec![Command::HideCaret];
    expected.extend(row(0, "~"));
    assert_eq!(terminal.take_commands(), expected);
}

#[test]
fn render_without_rows_or_columns_draws_nothing() {
    for size in [
        Size { height: 0, width: 0 },
        Size { height: 0, width: 80 },
        Size { height: 24, width: 0 },
    ] {
        let mut view = View::new(size);
        assert_eq!(render(&mut view), Vec::<Command>::new());
        assert!(view.needs_render());
    }
}

#[test]
fn second_render_draws_nothing() {
    let mut view = View::new(Size { height: 5, width: 30 });
    view.load(Ok(String::from("a\nb")));
    assert_eq!(render(&mut view).len(), 15);
    assert_eq!(render(&mut view), Vec::<Command>::new());
    assert_eq!(render(&mut view), Vec::<Command>::new());
    assert!(!view.needs_render());
}

#[test]
fn resize_forces_one_full_redraw() {
    let mut view = View::new(Size { height: 5, width: 30 });
    render(&mut view);
    assert!(!view.needs_render());
    view.resize(Size { height: 3, width: 10 });
    assert!(view.needs_render());
    assert_eq!(view.size(), Size { height: 3, width: 10 });
    assert_eq!(render(&mut view), rows(&["~", "~", "~"]));
    assert_eq!(render(&mut view), Vec::<Command>::new());
}

#[test]
fn resize_of_a_dirty_view_forces_one_full_redraw() {
    let mut view = View::new(Size { height: 5, width: 30 });
    view.load(Ok(String::from("abcdef")));
    view.resize(Size { height: 2, width: 4 });
    assert_eq!(render(&mut view), rows(&["abcd", "~"]));
    assert_eq!(render(&mut view), Vec::<Command>::new());
}

#[test]
fn resize_to_the_same_size_redraws() {
    let size = Size { height: 2, width: 4 };
    let mut view = View::new(size);
    render(&mut view);
    view.resize(size);
    assert_eq!(render(&mut view).len(), 6);
}

#[test]
fn resize_to_nothing_draws_nothing() {
    let mut view = View::new(Size { height: 5, width: 30 });
    render(&mut view);
    view.resize(Size { height: 0, width: 30 });
    assert!(view.needs_render());
    assert_eq!(render(&mut view), Vec::<Command>::new());
    view.resize(Size { height: 1, width: 30 });
    assert_eq!(render(&mut view).len(), 3);
}

#[test]
fn loading_three_lines_leaves_a_buffer_that_is_not_empty() {
    let mut view = View::new(Size { height: 24, width: 80 });
    view.load(Ok(String::from("one\ntwo\nthree\n")));
    assert!(!view.buffer().is_empty());
    assert_eq!(view.buffer().lines, vec!["one", "two", "three"]);
    assert!(view.needs_render());
}

#[test]
fn unloadable_file_leaves_the_buffer_empty() {
    let mut view = View::new(Size { height: 24, width: 80 });
    view.load(Err(Error::NotFound));
    assert!(view.buffer().is_empty());
    view.load(Err(Error::Io));
    assert!(view.buffer().is_empty());
}

#[test]
fn failed_load_changes_nothing() {
    let mut view = View::new(Size { height: 2, width: 80 });
    view.load(Ok(String::from("kept")));
    render(&mut view);
    view.load(Err(Error::NotFound));
    assert!(!view.needs_render());
    assert_eq!(view.buffer().lines, vec!["kept"]);
    assert_eq!(view.size(), Size { height: 2, width: 80 });
    assert_eq!(render(&mut view), Vec::<Command>::new());
}

#[test]
fn load_replaces_the_document_and_redraws() {
    let mut view = View::new(Size { height: 2, width: 80 });
    view.load(Ok(String::from("old\nlines\nhere")));
    render(&mut view);
    view.load(Ok(String::from("new")));
    assert!(view.needs_render());
    assert_eq!(render(&mut view), rows(&["new", "~"]));
}

#[test]
fn render_line_draws_one_row() {
    let mut terminal = Terminal::new();
    View::render_line(&mut terminal, 4, "line");
    assert_eq!(terminal.take_commands(), row(4, "line"));
}
