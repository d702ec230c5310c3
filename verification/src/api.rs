//! Endpoints of the dictionary service: the URLs the two lookups use.
//!
//! The calls themselves — the HTTP requests and the decoding of their
//! responses — live with the caller; here only the request URLs are built,
//! exactly as the service expects them.

use crate::lang::{lang_code, Lang};
use vstd::prelude::*;
use vstd::string::StringExecFns;

verus! {

/// URL of the autocomplete lookup for `word`.
pub fn autocomplete_url(word: &str, lang: Lang) -> (r: String)
    ensures
        r@ == "https://ac.tureng.co/?t="@ + word@ + "&l="@ + lang_code(lang),
{
    let mut r = String::from_str("https://ac.tureng.co/?t=");
    r.append(word);
    r.append("&l=");
    r.append(lang.to_str());
    r
}

/// URL of the full-translation lookup for `word`.
pub fn translate_url(word: &str, lang: Lang) -> (r: String)
    ensures
        r@ == "http://api.tureng.com/v1/dictionary/"@ + lang_code(lang) + "/"@ + word@,
{
    let mut r = String::from_str("http://api.tureng.com/v1/dictionary/");
    r.append(lang.to_str());
    r.append("/");
    r.append(word);
    r
}

} // verus!
