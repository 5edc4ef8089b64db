use rustea::render::{count_terminated_lines, normalize_text, Frame, Renderer};

#[test]
fn view_without_newline_gets_one() {
    assert_eq!(normalize_text("A"), "A\r\n");
    assert_eq!(normalize_text("hello world"), "hello world\r\n");
}

#[test]
fn view_with_newline_keeps_it() {
    assert_eq!(normalize_text("A\n"), "A\r\n");
    assert_eq!(normalize_text("A\n\n"), "A\r\n\r\n");
}

#[test]
fn empty_view_is_one_empty_line() {
    assert_eq!(normalize_text(""), "\r\n");
}

#[test]
fn every_newline_becomes_a_line_ending() {
    assert_eq!(normalize_text("a\nb\nc"), "a\r\nb\r\nc\r\n");
    assert_eq!(normalize_text("\n\n"), "\r\n\r\n");
    assert_eq!(normalize_text("a\r\nb"), "a\r\r\nb\r\n");
}

#[test]
fn text_beyond_ascii_is_kept() {
    assert_eq!(normalize_text("héllo\nwörld ✓"), "héllo\r\nwörld ✓\r\n");
}

#[test]
fn terminated_lines_are_counted() {
    assert_eq!(count_terminated_lines(""), 0);
    assert_eq!(count_terminated_lines("B\r\n"), 1);
    assert_eq!(count_terminated_lines("a\r\nb\r\nc\r\n"), 3);
    assert_eq!(count_terminated_lines("a\nb\n"), 0);
    assert_eq!(count_terminated_lines("a\r\r\n"), 1);
    assert_eq!(count_terminated_lines("\r\n\r\n"), 2);
    assert_eq!(count_terminated_lines("a\rb\n"), 0);
    assert_eq!(count_terminated_lines("é\r\n✓"), 1);
}

#[test]
fn frame_counts_its_lines() {
    let frame = Frame::of_view("one\ntwo\nthree");
    assert_eq!(frame.text(), "one\r\ntwo\r\nthree\r\n");
    assert_eq!(frame.lines(), 3);
    let blank = Frame::blank();
    assert_eq!(blank.text(), "");
    assert_eq!(blank.lines(), 0);
}

#[test]
fn first_frame_erases_nothing() {
    let mut renderer = Renderer::new();
    let repaint = renderer.render("B");
    assert_eq!(repaint.erase, 0);
    assert_eq!(repaint.text, "B\r\n");
    assert_eq!(renderer.frame().text(), "B\r\n");
}

#[test]
fn repaint_over_one_line_clears_one_line() {
    let mut renderer = Renderer::new();
    let first = renderer.render("B");
    assert_eq!(first.text, "B\r\n");
    let second = renderer.render("A");
    assert_eq!(second.erase, 1);
    assert_eq!(second.text, "A\r\n");
}

#[test]
fn repaint_clears_the_lines_of_the_frame_before() {
    let mut renderer = Renderer::new();
    renderer.render("a\nb\nc");
    let second = renderer.render("x");
    assert_eq!(second.erase, 3);
    let third = renderer.render("y\nz\n");
    assert_eq!(third.erase, 1);
    let fourth = renderer.render("");
    assert_eq!(fourth.erase, 2);
    assert_eq!(fourth.text, "\r\n");
}
