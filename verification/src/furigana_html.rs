//! Bracketed furigana (`漢字[かんじ]`) to HTML `<ruby>` markup for the HUD
//! overlay. The bracket parser and renderer are those of `mecab-furigana-rs`.

use vstd::prelude::*;

verus! {

/// The HTML `<ruby>` markup that `mecab_furigana_rs::furigana_to_html`
/// produces for a bracketed furigana string.
pub uninterp spec fn furigana_html_of(input: Seq<char>) -> Seq<char>;

/// HTML escaping of one character as `mecab-furigana-rs` does it:
/// `&`, `<`, `>` and `"` become entities, everything else is kept.
pub open spec fn html_escape_char(c: char) -> Seq<char> {
    if c == '&' {
        seq!['&', 'a', 'm', 'p', ';']
    } else if c == '<' {
        seq!['&', 'l', 't', ';']
    } else if c == '>' {
        seq!['&', 'g', 't', ';']
    } else if c == '"' {
        seq!['&', 'q', 'u', 'o', 't', ';']
    } else {
        seq![c]
    }
}

/// HTML escaping of a character sequence, character by character.
pub open spec fn html_escape(s: Seq<char>) -> Seq<char>
    decreases s.len(),
{
    if s.len() == 0 {
        Seq::empty()
    } else {
        html_escape(s.drop_last()) + html_escape_char(s.last())
    }
}

/// The characters that the bracket parser treats as kanji (CJK Unified
/// Ideographs and Extension A).
pub open spec fn is_cjk(c: char) -> bool {
    ('\u{4E00}' <= c && c <= '\u{9FFF}') || ('\u{3400}' <= c && c <= '\u{4DBF}')
}

/// Characters that HTML escaping rewrites.
pub open spec fn is_markup_char(c: char) -> bool {
    c == '&' || c == '<' || c == '>' || c == '"'
}

/// `mecab_furigana_rs::furigana_to_html`. The result is named by
/// `furigana_html_of`; besides that, the contract states two facts that the
/// crate's parser shows: input with no `[` at all, and input with no kanji at
/// all, is only HTML-escaped. What it renders for a kanji run followed by a
/// bracket (ruby markup, okurigana trimming) is left to the name.
#[verifier::external_body]
fn furigana_to_html(input: &str) -> (html: String)
    ensures
        html@ == furigana_html_of(input@),
        !input@.contains('[') ==> html@ == html_escape(input@),
        has_no_kanji(input@) ==> html@ == html_escape(input@),
{
    mecab_furigana_rs::furigana_to_html(input)
}

/// Text free of the characters that HTML escaping rewrites.
pub open spec fn is_plain(s: Seq<char>) -> bool {
    forall|i: int| 0 <= i < s.len() ==> !is_markup_char(#[trigger] s[i])
}

/// Text with no kanji.
pub open spec fn has_no_kanji(s: Seq<char>) -> bool {
    forall|i: int| 0 <= i < s.len() ==> !is_cjk(#[trigger] s[i])
}

/// Convert a bracketed furigana string to `<ruby>` element markup for the
/// HUD overlay, as `mecab_furigana_rs::furigana_to_html` renders it.
/// Text that has no reading bracket, or no kanji for a bracket to annotate,
/// is only HTML-escaped; if it holds no markup characters either, it comes
/// back unchanged.
pub fn bracketed_to_furigana_html(input: &str) -> (html: String)
    ensures
        html@ == furigana_html_of(input@),
        !input@.contains('[') ==> html@ == html_escape(input@),
        has_no_kanji(input@) ==> html@ == html_escape(input@),
        (!input@.contains('[') || has_no_kanji(input@)) && is_plain(input@) ==> html@ == input@,
{
    let html = furigana_to_html(input);
    proof {
        if is_plain(input@) {
            lemma_escape_plain(input@);
        }
    }
    html
}

/// HTML escaping leaves text without markup characters unchanged.
pub proof fn lemma_escape_plain(s: Seq<char>)
    requires
        forall|i: int| 0 <= i < s.len() ==> !is_markup_char(#[trigger] s[i]),
    ensures
        html_escape(s) == s,
    decreases s.len(),
{
    if s.len() > 0 {
        assert(!is_markup_char(s[s.len() - 1]));
        lemma_escape_plain(s.drop_last());
        assert(s.drop_last().push(s.last()) =~= s);
    }
}

} // verus!
