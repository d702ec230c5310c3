//! Dictionary direction: the language pair a lookup is made against.

use crate::strutil::str_eq;
use vstd::prelude::*;

verus! {

/// The closed set of language pairs the service offers.
#[derive(Clone, Copy, PartialEq, Eq, Structural, Debug)]
pub enum Lang {
    ENDE,
    ENES,
    ENFR,
    ENTR,
}

/// The short code of a language pair, as the service spells it.
pub open spec fn lang_code(l: Lang) -> Seq<char> {
    match l {
        Lang::ENDE => "ende"@,
        Lang::ENES => "enes"@,
        Lang::ENFR => "enfr"@,
        Lang::ENTR => "entr"@,
    }
}

/// Which language pair a short code names, if any.
pub open spec fn lang_of_code(s: Seq<char>) -> Result<Lang, ()> {
    if s == "ende"@ {
        Ok(Lang::ENDE)
    } else if s == "enes"@ {
        Ok(Lang::ENES)
    } else if s == "enfr"@ {
        Ok(Lang::ENFR)
    } else if s == "entr"@ {
        Ok(Lang::ENTR)
    } else {
        Err(())
    }
}

impl Default for Lang {
    /// The pair used when none is named.
    fn default() -> (r: Self)
        ensures
            r == Lang::ENTR,
    {
        Lang::ENTR
    }
}

impl Lang {
    /// The short code of this pair.
    pub fn to_str(self) -> (r: &'static str)
        ensures
            r@ == lang_code(self),
    {
        match self {
            Lang::ENDE => "ende",
            Lang::ENES => "enes",
            Lang::ENFR => "enfr",
            Lang::ENTR => "entr",
        }
    }

    /// Parses a short code; exactly the four codes are accepted.
    pub fn from_str(s: &str) -> (r: Result<Self, ()>)
        ensures
            r == lang_of_code(s@),
    {
        if str_eq(s, "ende") {
            Ok(Lang::ENDE)
        } else if str_eq(s, "enes") {
            Ok(Lang::ENES)
        } else if str_eq(s, "enfr") {
            Ok(Lang::ENFR)
        } else if str_eq(s, "entr") {
            Ok(Lang::ENTR)
        } else {
            Err(())
        }
    }
}

} // verus!
