//! Language flags and the lens's idle status line.

use vstd::prelude::*;
use vstd::string::*;
use crate::text::{opt_string_view, str_equals};

verus! {

#[verifier::external_type_specification]
#[verifier::external_body]
pub struct ExLanguage(isolang::Language);

/// The ISO 639-1 code that `isolang::Language::to_639_1` gives for `lang`.
pub uninterp spec fn iso_639_1_code(lang: isolang::Language) -> Option<Seq<char>>;

/// The view of an optional string slice.
pub open spec fn opt_str_view(o: Option<&str>) -> Option<Seq<char>> {
    match o {
        Some(s) => Some(s@),
        None => None,
    }
}

/// `isolang::Language::to_639_1`: the two-letter ISO 639-1 code of the
/// language, if the standard assigns one. The code is named by
/// `iso_639_1_code`; its two-letter length is what isolang documents.
#[verifier::external_body]
fn iso_639_1(lang: &isolang::Language) -> (code: Option<&'static str>)
    ensures
        opt_str_view(code) == iso_639_1_code(*lang),
        code matches Some(c) ==> c@.len() == 2,
{
    lang.to_639_1()
}

/// The flag shown for an ISO 639-1 code: a country flag for the common
/// languages, a globe for every other code and for languages without one.
pub open spec fn flag_for(code: Option<Seq<char>>) -> Seq<char> {
    match code {
        Some(c) => if c == "ja"@ {
            "🇯🇵"@
        } else if c == "en"@ {
            "🇺🇸"@
        } else if c == "zh"@ {
            "🇨🇳"@
        } else if c == "ko"@ {
            "🇰🇷"@
        } else if c == "fr"@ {
            "🇫🇷"@
        } else if c == "de"@ {
            "🇩🇪"@
        } else if c == "es"@ {
            "🇪🇸"@
        } else {
            "🌐"@
        },
        None => "🌐"@,
    }
}

/// The flag for an ISO 639-1 code (`None` for a language without one).
pub fn flag_for_code(code: Option<&str>) -> (flag: &'static str)
    ensures
        flag@ == flag_for(opt_str_view(code)),
{
    match code {
        Some(c) => {
            if str_equals(c, "ja") {
                "🇯🇵"
            } else if str_equals(c, "en") {
                "🇺🇸"
            } else if str_equals(c, "zh") {
                "🇨🇳"
            } else if str_equals(c, "ko") {
                "🇰🇷"
            } else if str_equals(c, "fr") {
                "🇫🇷"
            } else if str_equals(c, "de") {
                "🇩🇪"
            } else if str_equals(c, "es") {
                "🇪🇸"
            } else {
                "🌐"
            }
        },
        None => "🌐",
    }
}

/// Country-flag emoji for common languages; falls back to 🌐.
pub fn lang_flag(lang: &isolang::Language) -> (flag: &'static str)
    ensures
        flag@ == flag_for(iso_639_1_code(*lang)),
{
    flag_for_code(iso_639_1(lang))
}

/// The ISO 639-1 code of a language, as the lens state keeps it.
pub fn language_code(lang: &isolang::Language) -> (code: Option<String>)
    ensures
        opt_string_view(code) == iso_639_1_code(*lang),
{
    match iso_639_1(lang) {
        Some(c) => Some(c.to_owned()),
        None => None,
    }
}

/// The idle status line for a translation direction given by ISO 639-1
/// codes (`None` for a language without one).
pub open spec fn ready_status_of(src: Option<Seq<char>>, dest: Option<Seq<char>>) -> Seq<char> {
    flag_for(src) + "→"@ + flag_for(dest) + " | Shift+Click | Ctrl+Shift+Click | Shift+H:ヘルプ | ESC"@
}

/// The idle status line for a translation direction.
pub open spec fn ready_status_text(src: isolang::Language, dest: isolang::Language) -> Seq<char> {
    ready_status_of(iso_639_1_code(src), iso_639_1_code(dest))
}

/// The idle status line for a direction given by ISO 639-1 codes.
pub fn ready_status_for_codes(src: Option<&str>, dest: Option<&str>) -> (status: String)
    ensures
        status@ == ready_status_of(opt_str_view(src), opt_str_view(dest)),
{
    let mut status = String::new();
    status.append(flag_for_code(src));
    status.append("→");
    status.append(flag_for_code(dest));
    status.append(" | Shift+Click | Ctrl+Shift+Click | Shift+H:ヘルプ | ESC");
    assert(status@ =~= ready_status_of(opt_str_view(src), opt_str_view(dest)));
    status
}

/// The idle status line: the direction as two flags, then the key help.
pub fn ready_status(src: &isolang::Language, dest: &isolang::Language) -> (status: String)
    ensures
        status@ == ready_status_text(*src, *dest),
{
    ready_status_for_codes(iso_639_1(src), iso_639_1(dest))
}

} // verus!
