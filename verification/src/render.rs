//! Renderer: every redraw is a list of relative terminal commands.
//!
//! The prompt line is rewritten in place, the dropdown is rewritten below
//! it, and the cursor is brought back to the prompt by moving up exactly
//! the number of lines just written — never by clearing the screen.  The
//! command lists are data: the caller feeds them to the terminal one by
//! one.  Two spec interpreters say where the terminal cursor ends up: its
//! row offset ([`row_shift`]) and its column ([`col_after`]); every redraw
//! is proved to leave the cursor on the prompt row at column
//! `prompt width + cursor`.

use crate::multiplexer::FRAME_COUNT;
use crate::strutil::push_char;
use crate::text_buffer::UTF32String;
use vstd::prelude::*;
use vstd::string::StringExecFns;

verus! {

/// Width of the prompt glyph `"> "` in terminal columns.
pub const PROMPT_WIDTH: usize = 2;

/// How a piece of text is styled when printed.
pub enum Style {
    Plain,
    Green,
    /// Selected dropdown row: foreground and background swapped.
    Inverted,
}

/// One relative terminal command.  `Newline` is a line feed plus a
/// carriage return; all vertical motion is relative.
pub enum TermCmd {
    Print { text: String, style: Style },
    MoveUp { n: usize },
    MoveDown { n: usize },
    MoveRight { n: usize },
    CarriageReturn,
    Newline,
    ClearLine,
    ClearDown,
}

/// How far down one command moves the cursor (negative: up).
pub open spec fn row_delta(c: TermCmd) -> int {
    match c {
        TermCmd::Newline => 1,
        TermCmd::MoveUp { n } => -(n as int),
        TermCmd::MoveDown { n } => n as int,
        _ => 0,
    }
}

/// Net number of rows a command list moves the cursor down.
pub open spec fn row_shift(cmds: Seq<TermCmd>) -> int
    decreases cmds.len(),
{
    if cmds.len() == 0 {
        0
    } else {
        row_shift(cmds.drop_last()) + row_delta(cmds.last())
    }
}

/// Column after one command, starting from column `col`.
pub open spec fn col_step(c: TermCmd, col: int) -> int {
    match c {
        TermCmd::Print { text, style: _ } => col + text@.len(),
        TermCmd::MoveRight { n } => col + n,
        TermCmd::CarriageReturn => 0,
        TermCmd::Newline => 0,
        _ => col,
    }
}

/// Column after a command list, starting from column `col`.
pub open spec fn col_after(cmds: Seq<TermCmd>, col: int) -> int
    decreases cmds.len(),
{
    if cmds.len() == 0 {
        col
    } else {
        col_step(cmds.last(), col_after(cmds.drop_last(), col))
    }
}

/// Appending one command shifts the row by its delta and steps the column.
pub proof fn lemma_push_effect(s: Seq<TermCmd>, c: TermCmd)
    ensures
        row_shift(s.push(c)) == row_shift(s) + row_delta(c),
        forall|start: int| #[trigger]
            col_after(s.push(c), start) == col_step(c, col_after(s, start)),
{
    assert(s.push(c).drop_last() =~= s);
}

/// The interpreters distribute over concatenation.
pub proof fn lemma_concat_effect(a: Seq<TermCmd>, b: Seq<TermCmd>)
    ensures
        row_shift(a + b) == row_shift(a) + row_shift(b),
        forall|start: int| #[trigger] col_after(a + b, start) == col_after(b, col_after(a, start)),
    decreases b.len(),
{
    if b.len() == 0 {
        assert(a + b =~= a);
        assert(b =~= Seq::<TermCmd>::empty());
    } else {
        assert((a + b).drop_last() =~= a + b.drop_last());
        lemma_concat_effect(a, b.drop_last());
        assert forall|start: int| #[trigger]
            col_after(a + b, start) == col_after(b, col_after(a, start)) by {
            assert(col_after(a + b, start) == col_step(b.last(), col_after(a + b.drop_last(), start)));
        }
    }
}

/// The prompt glyph that precedes the query.
pub open spec fn prompt_glyph() -> Seq<char> {
    "> "@
}

/// The marker glyph that precedes each dropdown row.
pub open spec fn marker_glyph() -> Seq<char> {
    "\u{21aa}"@
}

/// The frame glyphs of the loading animation, in cycle order.
pub open spec fn frame_glyph(i: int) -> Seq<char> {
    if i == 0 {
        "\u{2581}"@
    } else if i == 1 {
        "\u{2582}"@
    } else if i == 2 {
        "\u{2583}"@
    } else if i == 3 {
        "\u{2584}"@
    } else if i == 4 {
        "\u{2585}"@
    } else if i == 5 {
        "\u{2586}"@
    } else if i == 6 {
        "\u{2587}"@
    } else if i == 7 {
        "\u{2588}"@
    } else if i == 8 {
        "\u{2587}"@
    } else if i == 9 {
        "\u{2586}"@
    } else if i == 10 {
        "\u{2585}"@
    } else if i == 11 {
        "\u{2584}"@
    } else if i == 12 {
        "\u{2583}"@
    } else {
        "\u{2581}"@
    }
}

/// Shape of the in-place prompt-line redraw: clear the line, print the
/// prompt glyph and the buffer, and park the cursor at
/// `prompt width + cursor`.
pub open spec fn prompt_cmds_ok(r: Seq<TermCmd>, buf: Seq<char>, cursor: int) -> bool {
    &&& r.len() == 6
    &&& r[0] == TermCmd::CarriageReturn
    &&& r[1] == TermCmd::ClearLine
    &&& (r[2] matches TermCmd::Print { text, style } && text@ == prompt_glyph() && style
        == Style::Green)
    &&& (r[3] matches TermCmd::Print { text, style } && text@ == buf && style == Style::Plain)
    &&& r[4] == TermCmd::CarriageReturn
    &&& (r[5] matches TermCmd::MoveRight { n } && n == PROMPT_WIDTH + cursor)
}

/// Shape of dropdown row `i`: the marker glyph, one space and the
/// inverted candidate on the selected row, two spaces and the plain
/// candidate elsewhere.
pub open spec fn popup_line_ok(r: Seq<TermCmd>, i: int, cands: Seq<Seq<char>>, index: int) -> bool {
    let base = 2 + 4 * i;
    &&& (r[base] matches TermCmd::Print { text, style } && text@ == marker_glyph() && style
        == Style::Green)
    &&& (r[base + 1] matches TermCmd::Print { text, style } && text@ == (if i == index {
        " "@
    } else {
        "  "@
    }) && style == Style::Plain)
    &&& (r[base + 2] matches TermCmd::Print { text, style } && text@ == cands[i] && style == (
    if i == index {
        Style::Inverted
    } else {
        Style::Plain
    }))
    &&& r[base + 3] == TermCmd::Newline
}

/// Shape of the full dropdown redraw: move below the prompt, clear
/// downward, write one row per visible candidate, move back up over
/// everything just written, and redraw the prompt line.
pub open spec fn popup_cmds_ok(
    r: Seq<TermCmd>,
    cands: Seq<Seq<char>>,
    index: int,
    capacity: int,
    buf: Seq<char>,
    cursor: int,
) -> bool {
    let shown = if cands.len() <= capacity {
        cands.len() as int
    } else {
        capacity
    };
    &&& r.len() == 9 + 4 * shown
    &&& r[0] == TermCmd::Newline
    &&& r[1] == TermCmd::ClearDown
    &&& (forall|i: int| 0 <= i < shown ==> #[trigger] popup_line_ok(r, i, cands, index))
    &&& (r[2 + 4 * shown] matches TermCmd::MoveUp { n } && n == shown + 1)
    &&& prompt_cmds_ok(r.subrange(3 + 4 * shown, 9 + 4 * shown), buf, cursor)
}

/// Shape of the loading-indicator redraw: hop to the end of the query,
/// print the frame glyph, and park the cursor back at the prompt.
pub open spec fn spinner_cmds_ok(
    r: Seq<TermCmd>,
    buf_len: int,
    cursor: int,
    frame: int,
) -> bool {
    &&& r.len() == 6
    &&& r[0] == TermCmd::CarriageReturn
    &&& (r[1] matches TermCmd::MoveRight { n } && n == PROMPT_WIDTH + buf_len)
    &&& (r[2] matches TermCmd::Print { text, style } && text@ == "  "@ && style == Style::Plain)
    &&& (r[3] matches TermCmd::Print { text, style } && text@ == frame_glyph(frame) && style
        == Style::Plain)
    &&& r[4] == TermCmd::CarriageReturn
    &&& (r[5] matches TermCmd::MoveRight { n } && n == PROMPT_WIDTH + cursor)
}

/// In-place redraw of the prompt line.  The cursor ends on the same row,
/// at column `prompt width + cursor`.
pub fn render_prompt_line(buffer: &UTF32String, cursor: usize) -> (r: Vec<TermCmd>)
    requires
        cursor <= buffer@.len(),
        cursor + PROMPT_WIDTH <= usize::MAX,
    ensures
        prompt_cmds_ok(r@, buffer@, cursor as int),
        row_shift(r@) == 0,
        forall|start: int| #[trigger] col_after(r@, start) == PROMPT_WIDTH + cursor,
{
    let mut r: Vec<TermCmd> = Vec::new();
    let ghost g0 = r@;
    r.push(TermCmd::CarriageReturn);
    let ghost g1 = r@;
    r.push(TermCmd::ClearLine);
    let ghost g2 = r@;
    r.push(TermCmd::Print { text: String::from_str("> "), style: Style::Green });
    let ghost g3 = r@;
    r.push(TermCmd::Print { text: buffer.render(), style: Style::Plain });
    let ghost g4 = r@;
    r.push(TermCmd::CarriageReturn);
    let ghost g5 = r@;
    r.push(TermCmd::MoveRight { n: PROMPT_WIDTH + cursor });
    proof {
        lemma_push_effect(g0, r@[0]);
        lemma_push_effect(g1, r@[1]);
        lemma_push_effect(g2, r@[2]);
        lemma_push_effect(g3, r@[3]);
        lemma_push_effect(g4, r@[4]);
        lemma_push_effect(g5, r@[5]);
    }
    r
}

/// Full dropdown redraw below the prompt.  The cursor comes back to the
/// prompt row, at column `prompt width + cursor`, however many rows were
/// written.
pub fn render_popup(
    cands: &Vec<String>,
    index: usize,
    capacity: usize,
    buffer: &UTF32String,
    cursor: usize,
) -> (r: Vec<TermCmd>)
    requires
        cursor <= buffer@.len(),
        cursor + PROMPT_WIDTH <= usize::MAX,
        capacity < usize::MAX,
    ensures
        popup_cmds_ok(r@, cands.deep_view(), index as int, capacity as int, buffer@, cursor as int),
        row_shift(r@) == 0,
        forall|start: int| #[trigger] col_after(r@, start) == PROMPT_WIDTH + cursor,
{
    let ghost cs = cands.deep_view();
    let shown = if cands.len() <= capacity {
        cands.len()
    } else {
        capacity
    };
    let mut r: Vec<TermCmd> = Vec::new();
    let ghost g0 = r@;
    r.push(TermCmd::Newline);
    let ghost g1 = r@;
    r.push(TermCmd::ClearDown);
    proof {
        lemma_push_effect(g0, TermCmd::Newline);
        lemma_push_effect(g1, TermCmd::ClearDown);
    }
    let mut i: usize = 0;
    while i < shown
        invariant
            shown == (if cs.len() <= capacity {
                cs.len() as int
            } else {
                capacity as int
            }),
            shown <= cands@.len(),
            capacity < usize::MAX,
            cs == cands.deep_view(),
            i <= shown,
            r@.len() == 2 + 4 * i,
            r@[0] == TermCmd::Newline,
            r@[1] == TermCmd::ClearDown,
            forall|j: int| 0 <= j < i ==> #[trigger] popup_line_ok(r@, j, cs, index as int),
            row_shift(r@) == 1 + i,
            forall|start: int| #[trigger] col_after(r@, start) == 0,
        decreases shown - i,
    {
        let ghost before = r@;
        let ghost b0 = r@;
        r.push(TermCmd::Print { text: String::from_str("\u{21aa}"), style: Style::Green });
        let ghost b1 = r@;
        if i == index {
            r.push(TermCmd::Print { text: String::from_str(" "), style: Style::Plain });
        } else {
            r.push(TermCmd::Print { text: String::from_str("  "), style: Style::Plain });
        }
        let ghost b2 = r@;
        let style = if i == index {
            Style::Inverted
        } else {
            Style::Plain
        };
        r.push(TermCmd::Print { text: cands[i].clone(), style });
        let ghost b3 = r@;
        r.push(TermCmd::Newline);
        proof {
            lemma_push_effect(b0, b1.last());
            lemma_push_effect(b1, b2.last());
            lemma_push_effect(b2, b3.last());
            lemma_push_effect(b3, TermCmd::Newline);
            assert forall|j: int| 0 <= j < i + 1 implies #[trigger] popup_line_ok(
                r@,
                j,
                cs,
                index as int,
            ) by {
                if j < i {
                    assert(popup_line_ok(before, j, cs, index as int));
                }
            }
        }
        i = i + 1;
    }
    let ghost gm = r@;
    r.push(TermCmd::MoveUp { n: shown + 1 });
    proof {
        lemma_push_effect(gm, TermCmd::MoveUp { n: (shown + 1) as usize });
    }
    let ghost front = r@;
    let mut p = render_prompt_line(buffer, cursor);
    let ghost pv = p@;
    r.append(&mut p);
    proof {
        lemma_concat_effect(front, pv);
        assert(r@.subrange(3 + 4 * shown, 9 + 4 * shown) =~= pv);
        assert forall|j: int| 0 <= j < shown implies #[trigger] popup_line_ok(
            r@,
            j,
            cs,
            index as int,
        ) by {
            assert(popup_line_ok(gm, j, cs, index as int));
            assert(front[2 + 4 * j] == gm[2 + 4 * j]);
            assert(front[2 + 4 * j + 1] == gm[2 + 4 * j + 1]);
            assert(front[2 + 4 * j + 2] == gm[2 + 4 * j + 2]);
            assert(front[2 + 4 * j + 3] == gm[2 + 4 * j + 3]);
            assert(r@[2 + 4 * j] == front[2 + 4 * j]);
            assert(r@[2 + 4 * j + 1] == front[2 + 4 * j + 1]);
            assert(r@[2 + 4 * j + 2] == front[2 + 4 * j + 2]);
            assert(r@[2 + 4 * j + 3] == front[2 + 4 * j + 3]);
        }
    }
    r
}

/// Executable lookup of the loading-animation frame glyph.
pub fn spinner_text(frame: usize) -> (s: String)
    requires
        frame < FRAME_COUNT,
    ensures
        s@ == frame_glyph(frame as int),
{
    let t: &str = if frame == 0 {
        "\u{2581}"
    } else if frame == 1 {
        "\u{2582}"
    } else if frame == 2 {
        "\u{2583}"
    } else if frame == 3 {
        "\u{2584}"
    } else if frame == 4 {
        "\u{2585}"
    } else if frame == 5 {
        "\u{2586}"
    } else if frame == 6 {
        "\u{2587}"
    } else if frame == 7 {
        "\u{2588}"
    } else if frame == 8 {
        "\u{2587}"
    } else if frame == 9 {
        "\u{2586}"
    } else if frame == 10 {
        "\u{2585}"
    } else if frame == 11 {
        "\u{2584}"
    } else if frame == 12 {
        "\u{2583}"
    } else {
        "\u{2581}"
    };
    t.to_owned()
}

/// Redraw of the loading indicator after the query.  The cursor ends on
/// the same row, back at column `prompt width + cursor`.
pub fn render_spinner(buffer_len: usize, cursor: usize, frame: usize) -> (r: Vec<TermCmd>)
    requires
        frame < FRAME_COUNT,
        cursor + PROMPT_WIDTH <= usize::MAX,
        buffer_len + PROMPT_WIDTH <= usize::MAX,
    ensures
        spinner_cmds_ok(r@, buffer_len as int, cursor as int, frame as int),
        row_shift(r@) == 0,
        forall|start: int| #[trigger] col_after(r@, start) == PROMPT_WIDTH + cursor,
{
    let mut r: Vec<TermCmd> = Vec::new();
    let ghost g0 = r@;
    r.push(TermCmd::CarriageReturn);
    let ghost g1 = r@;
    r.push(TermCmd::MoveRight { n: PROMPT_WIDTH + buffer_len });
    let ghost g2 = r@;
    r.push(TermCmd::Print { text: String::from_str("  "), style: Style::Plain });
    let ghost g3 = r@;
    r.push(TermCmd::Print { text: spinner_text(frame), style: Style::Plain });
    let ghost g4 = r@;
    r.push(TermCmd::CarriageReturn);
    let ghost g5 = r@;
    r.push(TermCmd::MoveRight { n: PROMPT_WIDTH + cursor });
    proof {
        lemma_push_effect(g0, r@[0]);
        lemma_push_effect(g1, r@[1]);
        lemma_push_effect(g2, r@[2]);
        lemma_push_effect(g3, r@[3]);
        lemma_push_effect(g4, r@[4]);
        lemma_push_effect(g5, r@[5]);
    }
    r
}

/// Commands that open the prompt: reserve `capacity` rows for the
/// dropdown, move back up onto the prompt row and print the prompt glyph.
pub fn render_setup(capacity: usize) -> (r: Vec<TermCmd>)
    ensures
        r@.len() == capacity + 2,
        forall|i: int| 0 <= i < capacity ==> r@[i] == TermCmd::Newline,
        (r@[capacity as int] matches TermCmd::MoveUp { n } && n == capacity),
        (r@[capacity as int + 1] matches TermCmd::Print { text, style } && text@ == prompt_glyph()
            && style == Style::Green),
        row_shift(r@) == 0,
{
    let mut r: Vec<TermCmd> = Vec::new();
    let mut i: usize = 0;
    while i < capacity
        invariant
            i <= capacity,
            r@.len() == i,
            forall|j: int| 0 <= j < i ==> r@[j] == TermCmd::Newline,
            row_shift(r@) == i,
        decreases capacity - i,
    {
        let ghost g = r@;
        r.push(TermCmd::Newline);
        proof {
            lemma_push_effect(g, TermCmd::Newline);
        }
        i = i + 1;
    }
    let ghost gm = r@;
    r.push(TermCmd::MoveUp { n: capacity });
    let ghost gp = r@;
    r.push(TermCmd::Print { text: String::from_str("> "), style: Style::Green });
    proof {
        lemma_push_effect(gm, r@[capacity as int]);
        lemma_push_effect(gp, r@[capacity as int + 1]);
    }
    r
}

/// Commands that close the prompt: move below the `shown` dropdown rows
/// and start a fresh line there.
pub fn render_exit(shown: usize) -> (r: Vec<TermCmd>)
    ensures
        r@.len() == 2,
        (r@[0] matches TermCmd::MoveDown { n } && n == shown),
        r@[1] == TermCmd::Newline,
        row_shift(r@) == shown + 1,
        forall|start: int| #[trigger] col_after(r@, start) == 0,
{
    let mut r: Vec<TermCmd> = Vec::new();
    let ghost g0 = r@;
    r.push(TermCmd::MoveDown { n: shown });
    let ghost g1 = r@;
    r.push(TermCmd::Newline);
    proof {
        lemma_push_effect(g0, r@[0]);
        lemma_push_effect(g1, TermCmd::Newline);
    }
    r
}

} // verus!
