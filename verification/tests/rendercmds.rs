//! Tests of the terminal-command renderer.

use tureng::render::{
    render_exit, render_popup, render_prompt_line, render_setup, render_spinner, spinner_text,
    Style, TermCmd,
};
use tureng::text_buffer::UTF32String;

fn buffer_of(s: &str) -> UTF32String {
    let mut b = UTF32String::new();
    let mut i: usize = 0;
    for c in s.chars() {
        b.insert(i, c);
        i += 1;
    }
    b
}

fn is_print(c: &TermCmd, want: &str, green: bool) -> bool {
    match c {
        TermCmd::Print { text, style } => {
            text == want
                && match style {
                    Style::Green => green,
                    Style::Plain => !green,
                    Style::Inverted => false,
                }
        }
        _ => false,
    }
}

#[test]
fn prompt_line_rewrites_in_place() {
    let b = buffer_of("ca");
    let r = render_prompt_line(&b, 1);
    assert_eq!(r.len(), 6);
    assert!(matches!(r[0], TermCmd::CarriageReturn));
    assert!(matches!(r[1], TermCmd::ClearLine));
    assert!(is_print(&r[2], "> ", true));
    assert!(is_print(&r[3], "ca", false));
    assert!(matches!(r[4], TermCmd::CarriageReturn));
    assert!(matches!(r[5], TermCmd::MoveRight { n: 3 }));
}

#[test]
fn popup_highlights_the_selected_row() {
    let cands = vec!["cat".to_string(), "car".to_string(), "cab".to_string()];
    let b = buffer_of("ca");
    let r = render_popup(&cands, 1, 9, &b, 2);
    assert_eq!(r.len(), 9 + 4 * 3);
    assert!(matches!(r[0], TermCmd::Newline));
    assert!(matches!(r[1], TermCmd::ClearDown));
    // Row 0, unselected: marker, two spaces, plain text.
    assert!(is_print(&r[2], "\u{21aa}", true));
    assert!(is_print(&r[3], "  ", false));
    assert!(is_print(&r[4], "cat", false));
    assert!(matches!(r[5], TermCmd::Newline));
    // Row 1, selected: marker, one space, inverted text.
    assert!(is_print(&r[6], "\u{21aa}", true));
    assert!(is_print(&r[7], " ", false));
    assert!(
        matches!(&r[8], TermCmd::Print { text, style: Style::Inverted } if text == "car")
    );
    assert!(matches!(r[9], TermCmd::Newline));
    // Back up over the three rows and the prompt line.
    assert!(matches!(r[14], TermCmd::MoveUp { n: 4 }));
    // The prompt line is redrawn and the cursor parked after the query.
    assert!(matches!(r[15], TermCmd::CarriageReturn));
    assert!(matches!(r[20], TermCmd::MoveRight { n: 4 }));
}

#[test]
fn popup_shows_at_most_capacity_rows() {
    let cands = vec!["a".to_string(), "b".to_string(), "c".to_string()];
    let b = buffer_of("q");
    let r = render_popup(&cands, 0, 2, &b, 1);
    assert_eq!(r.len(), 9 + 4 * 2);
    assert!(matches!(r[10], TermCmd::MoveUp { n: 3 }));
}

#[test]
fn spinner_returns_cursor_to_prompt() {
    let r = render_spinner(2, 1, 3);
    assert_eq!(r.len(), 6);
    assert!(matches!(r[0], TermCmd::CarriageReturn));
    assert!(matches!(r[1], TermCmd::MoveRight { n: 4 }));
    assert!(is_print(&r[2], "  ", false));
    assert!(is_print(&r[3], "\u{2584}", false));
    assert!(matches!(r[4], TermCmd::CarriageReturn));
    assert!(matches!(r[5], TermCmd::MoveRight { n: 3 }));
}

#[test]
fn spinner_frames_cycle() {
    assert_eq!(spinner_text(0), "\u{2581}");
    assert_eq!(spinner_text(7), "\u{2588}");
    assert_eq!(spinner_text(13), "\u{2581}");
}

#[test]
fn setup_reserves_dropdown_rows() {
    let r = render_setup(2);
    assert_eq!(r.len(), 4);
    assert!(matches!(r[0], TermCmd::Newline));
    assert!(matches!(r[1], TermCmd::Newline));
    assert!(matches!(r[2], TermCmd::MoveUp { n: 2 }));
    assert!(is_print(&r[3], "> ", true));
}

#[test]
fn exit_moves_below_the_dropdown() {
    let r = render_exit(3);
    assert_eq!(r.len(), 2);
    assert!(matches!(r[0], TermCmd::MoveDown { n: 3 }));
    assert!(matches!(r[1], TermCmd::Newline));
}
