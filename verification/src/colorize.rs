//! ANSI coloring of terminal text.
//!
//! A [`Colored`] value pairs a piece of text with the escape code of its
//! color; rendering wraps the text in that code and the reset code.

use vstd::prelude::*;
use vstd::string::StringExecFns;

verus! {

/// ANSI escape that ends a colored span.
pub open spec fn reset_code() -> Seq<char> {
    "\u{1b}[0m"@
}

pub open spec fn red_code() -> Seq<char> {
    "\u{1b}[38;5;1m"@
}

pub open spec fn magenta_code() -> Seq<char> {
    "\u{1b}[38;5;5m"@
}

pub open spec fn green_code() -> Seq<char> {
    "\u{1b}[38;5;2m"@
}

pub open spec fn yellow_code() -> Seq<char> {
    "\u{1b}[38;5;3m"@
}

/// `text` wrapped in a color code and the reset code.
pub open spec fn colored_seq(code: Seq<char>, text: Seq<char>) -> Seq<char> {
    code + text + reset_code()
}

/// A piece of text and the ANSI color it is printed in.
pub struct Colored {
    pub text: String,
    pub code: &'static str,
}

impl Colored {
    /// What printing this value writes: color code, text, reset code.
    pub open spec fn rendered(self) -> Seq<char> {
        colored_seq(self.code@, self.text@)
    }

    pub fn render(&self) -> (r: String)
        ensures
            r@ == self.rendered(),
    {
        let mut r = self.code.to_owned();
        r.append(self.text.as_str());
        r.append("\u{1b}[0m");
        r
    }
}

/// Coloring text in the palette the result table uses.
pub trait ToColored {
    spec fn text_view(&self) -> Seq<char>;

    fn with_red(&self) -> (r: Colored)
        ensures
            r.text@ == self.text_view(),
            r.code@ == red_code(),
    ;

    fn with_magenta(&self) -> (r: Colored)
        ensures
            r.text@ == self.text_view(),
            r.code@ == magenta_code(),
    ;

    fn with_green(&self) -> (r: Colored)
        ensures
            r.text@ == self.text_view(),
            r.code@ == green_code(),
    ;

    fn with_yellow(&self) -> (r: Colored)
        ensures
            r.text@ == self.text_view(),
            r.code@ == yellow_code(),
    ;
}

impl ToColored for String {
    open spec fn text_view(&self) -> Seq<char> {
        self@
    }

    fn with_red(&self) -> (r: Colored) {
        Colored { text: self.clone(), code: "\u{1b}[38;5;1m" }
    }

    fn with_magenta(&self) -> (r: Colored) {
        Colored { text: self.clone(), code: "\u{1b}[38;5;5m" }
    }

    fn with_green(&self) -> (r: Colored) {
        Colored { text: self.clone(), code: "\u{1b}[38;5;2m" }
    }

    fn with_yellow(&self) -> (r: Colored) {
        Colored { text: self.clone(), code: "\u{1b}[38;5;3m" }
    }
}

} // verus!
