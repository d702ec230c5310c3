//! Translation results and their table rendering.
//!
//! A lookup response carries rows of term pairs; the table writer lays them
//! out in four centered columns — input, translation, category, term type —
//! with ANSI-colored cells and a box-drawn header.  Column widths follow
//! the widest term of each column and are rounded up to an odd width.

use crate::colorize::{colored_seq, green_code, magenta_code, red_code, yellow_code, ToColored};
use crate::strutil::{center, center_seq};
use vstd::prelude::*;
use vstd::string::{StrSliceExecFns, StringExecFns};

verus! {

/// One translation row of a lookup response.
pub struct RespResult {
    pub category_text_a: String,
    pub category_text_b: String,
    pub term_a: String,
    pub term_b: String,
    pub term_type_text_a: Option<String>,
    pub term_type_text_b: Option<String>,
}

/// A full lookup response: the rows of both dictionary directions.
pub struct RespRoot {
    pub aresults: Vec<RespResult>,
    pub bresults: Vec<RespResult>,
}

/// `r` with its two directions exchanged.
pub open spec fn swapped(r: RespResult) -> RespResult {
    RespResult {
        category_text_a: r.category_text_b,
        category_text_b: r.category_text_a,
        term_a: r.term_b,
        term_b: r.term_a,
        term_type_text_a: r.term_type_text_b,
        term_type_text_b: r.term_type_text_a,
    }
}

/// The rows as the table prints them: exchanged when `swap` is set.
pub open spec fn eff_results(rs: Seq<RespResult>, swap: bool) -> Seq<RespResult> {
    if swap {
        rs.map_values(|r: RespResult| swapped(r))
    } else {
        rs
    }
}

/// Width of the input column: the longest `term_a`, at least `init`.
pub open spec fn width_a(rs: Seq<RespResult>, init: int) -> int
    decreases rs.len(),
{
    if rs.len() == 0 {
        init
    } else {
        let w = width_a(rs.drop_last(), init);
        if rs.last().term_a@.len() > w {
            rs.last().term_a@.len() as int
        } else {
            w
        }
    }
}

/// Width of the translation column: the longest `term_b`, at least `init`.
pub open spec fn width_b(rs: Seq<RespResult>, init: int) -> int
    decreases rs.len(),
{
    if rs.len() == 0 {
        init
    } else {
        let w = width_b(rs.drop_last(), init);
        if rs.last().term_b@.len() > w {
            rs.last().term_b@.len() as int
        } else {
            w
        }
    }
}

/// The next odd width at or below `w + 1`.
pub open spec fn oddify(w: int) -> int {
    (w / 2) * 2 + 1
}

/// The box-drawn header line over column widths `w1` and `w2`.
pub open spec fn header_line(w1: int, w2: int) -> Seq<char> {
    "\u{250c}"@ + center_seq(colored_seq(red_code(), "Input"@), w1, '\u{2500}')
        + "\u{2510}   \u{250c}"@ + center_seq(
        colored_seq(red_code(), "Translation"@),
        w2,
        '\u{2500}',
    ) + "\u{2510}   \u{250c}"@ + center_seq(colored_seq(red_code(), "Category"@), 16, '\u{2500}')
        + "\u{2510}   \u{250c}"@ + center_seq(
        colored_seq(red_code(), "Term Type"@),
        11,
        '\u{2500}',
    ) + "\u{2510}"@
}

/// The term-type cell text: the row's entry, or `null` where it has none.
pub open spec fn type_text(r: RespResult) -> Seq<char> {
    match r.term_type_text_b {
        Some(s) => s@,
        None => "null"@,
    }
}

/// One table row over cell widths `w1` and `w2`.
pub open spec fn result_line(r: RespResult, w1: int, w2: int) -> Seq<char> {
    center_seq(colored_seq(magenta_code(), r.term_a@), w1, ' ') + "   "@ + center_seq(
        colored_seq(green_code(), r.term_b@),
        w2,
        ' ',
    ) + "   "@ + center_seq(colored_seq(yellow_code(), r.category_text_b@), 18, ' ') + "   "@
        + center_seq(colored_seq(yellow_code(), type_text(r)), 14, ' ')
}

fn clone_opt(o: &Option<String>) -> (r: Option<String>)
    ensures
        r == *o,
{
    match o {
        Some(s) => Some(s.clone()),
        None => None,
    }
}

fn swap_result(r: &RespResult) -> (s: RespResult)
    ensures
        s == swapped(*r),
{
    RespResult {
        category_text_a: r.category_text_b.clone(),
        category_text_b: r.category_text_a.clone(),
        term_a: r.term_b.clone(),
        term_b: r.term_a.clone(),
        term_type_text_a: clone_opt(&r.term_type_text_b),
        term_type_text_b: clone_opt(&r.term_type_text_a),
    }
}

fn header_line_exec(w1: usize, w2: usize) -> (h: String)
    ensures
        h@ == header_line(w1 as int, w2 as int),
{
    let mut h = String::from_str("\u{250c}");
    h.append(center(String::from_str("Input").with_red().render().as_str(), w1, '\u{2500}').as_str());
    h.append("\u{2510}   \u{250c}");
    h.append(
        center(String::from_str("Translation").with_red().render().as_str(), w2, '\u{2500}').as_str(),
    );
    h.append("\u{2510}   \u{250c}");
    h.append(
        center(String::from_str("Category").with_red().render().as_str(), 16, '\u{2500}').as_str(),
    );
    h.append("\u{2510}   \u{250c}");
    h.append(
        center(String::from_str("Term Type").with_red().render().as_str(), 11, '\u{2500}').as_str(),
    );
    h.append("\u{2510}");
    proof {
        assert(h@ =~= header_line(w1 as int, w2 as int));
    }
    h
}

fn result_line_exec(r: &RespResult, w1: usize, w2: usize) -> (line: String)
    ensures
        line@ == result_line(*r, w1 as int, w2 as int),
{
    let mut line = center(r.term_a.with_magenta().render().as_str(), w1, ' ');
    line.append("   ");
    line.append(center(r.term_b.with_green().render().as_str(), w2, ' ').as_str());
    line.append("   ");
    line.append(center(r.category_text_b.with_yellow().render().as_str(), 18, ' ').as_str());
    line.append("   ");
    let tt = match &r.term_type_text_b {
        Some(s) => s.clone(),
        None => String::from_str("null"),
    };
    line.append(center(tt.with_yellow().render().as_str(), 14, ' ').as_str());
    proof {
        assert(line@ =~= result_line(*r, w1 as int, w2 as int));
    }
    line
}

/// Lays the rows out as table lines: the header, a blank line, then one
/// line per row, in order.  With `swap` set the two directions are
/// exchanged first.
pub fn repr_results(results: Vec<RespResult>, swap: bool) -> (lines: Vec<String>)
    requires
        forall|i: int| 0 <= i < results@.len() ==> (#[trigger] results@[i]).term_a@.len()
            <= usize::MAX - 3 && results@[i].term_b@.len() <= usize::MAX - 3,
    ensures
        ({
            let rs = eff_results(results@, swap);
            let w1 = oddify(width_a(rs, 5));
            let w2 = oddify(width_b(rs, 11));
            &&& lines@.len() == rs.len() + 2
            &&& lines@[0]@ == header_line(w1, w2)
            &&& lines@[1]@ == Seq::<char>::empty()
            &&& forall|i: int| 0 <= i < rs.len() ==> lines@[i + 2]@ == result_line(
                #[trigger] rs[i],
                w1 + 2,
                w2 + 2,
            )
        }),
{
    let ghost e = eff_results(results@, swap);
    let n = results.len();
    let rs: Vec<RespResult> = if swap {
        let mut acc: Vec<RespResult> = Vec::new();
        let mut i: usize = 0;
        while i < n
            invariant
                n == results@.len(),
                i <= n,
                acc@.len() == i,
                forall|j: int| 0 <= j < i ==> acc@[j] == swapped(#[trigger] results@[j]),
            decreases n - i,
        {
            acc.push(swap_result(&results[i]));
            i = i + 1;
        }
        proof {
            assert(acc@ =~= e);
        }
        acc
    } else {
        results
    };
    proof {
        assert(rs@ == e);
        assert forall|j: int| 0 <= j < e.len() implies (#[trigger] e[j]).term_a@.len() <= usize::MAX
            - 3 && e[j].term_b@.len() <= usize::MAX - 3 by {
            if swap {
                assert(e[j] == swapped(results@[j]));
            }
        }
    }
    let mut w1: usize = 5;
    let mut w2: usize = 11;
    let mut i: usize = 0;
    while i < rs.len()
        invariant
            rs@ == e,
            i <= e.len(),
            w1 == width_a(e.subrange(0, i as int), 5),
            w2 == width_b(e.subrange(0, i as int), 11),
            w1 <= usize::MAX - 3,
            w2 <= usize::MAX - 3,
            forall|j: int| 0 <= j < e.len() ==> (#[trigger] e[j]).term_a@.len() <= usize::MAX - 3
                && e[j].term_b@.len() <= usize::MAX - 3,
        decreases e.len() - i,
    {
        let la = rs[i].term_a.as_str().unicode_len();
        if la > w1 {
            w1 = la;
        }
        let lb = rs[i].term_b.as_str().unicode_len();
        if lb > w2 {
            w2 = lb;
        }
        proof {
            let t = e.subrange(0, i + 1);
            assert(t.drop_last() =~= e.subrange(0, i as int));
            assert(t.last() == e[i as int]);
        }
        i = i + 1;
    }
    proof {
        assert(e.subrange(0, e.len() as int) =~= e);
    }
    w1 = (w1 / 2) * 2 + 1;
    w2 = (w2 / 2) * 2 + 1;
    let mut lines: Vec<String> = Vec::new();
    lines.push(header_line_exec(w1, w2));
    lines.push(String::new());
    let cw1 = w1 + 2;
    let cw2 = w2 + 2;
    let mut i: usize = 0;
    while i < rs.len()
        invariant
            rs@ == e,
            i <= e.len(),
            lines@.len() == 2 + i,
            lines@[0]@ == header_line(oddify(width_a(e, 5)), oddify(width_b(e, 11))),
            lines@[1]@ == Seq::<char>::empty(),
            cw1 == oddify(width_a(e, 5)) + 2,
            cw2 == oddify(width_b(e, 11)) + 2,
            forall|j: int| 0 <= j < i ==> lines@[j + 2]@ == result_line(
                #[trigger] e[j],
                cw1 as int,
                cw2 as int,
            ),
        decreases e.len() - i,
    {
        lines.push(result_line_exec(&rs[i], cw1, cw2));
        i = i + 1;
    }
    lines
}

} // verus!
