//! Rendering of OCR / translation results into HUD overlay text.

use vstd::prelude::*;
use vstd::string::*;
use crate::text::{join_seqs, join_strings, lemma_join_concat, string_views};

verus! {

/// One OCR'd text region together with whatever enrichment is known for it.
#[derive(Clone, Debug, Default)]
pub struct TranslationResult {
    pub original: String,
    pub english: Option<String>,
    pub furigana: Option<String>,
    pub romaji: Option<String>,
    pub top_xy: Option<String>,
    pub bot_xy: Option<String>,
    pub debug_info: Option<String>,
}

/// Which representation of each result the HUD overlay shows.
#[derive(Clone, Copy, Debug, PartialEq, Eq, Structural)]
pub enum OverlayRenderMode {
    Original,
    English,
    Furigana,
    Romaji,
    All,
    Debug,
}

/// `o`'s text when present, `fallback` otherwise.
pub open spec fn or_else(o: Option<String>, fallback: Seq<char>) -> Seq<char> {
    match o {
        Some(s) => s@,
        None => fallback,
    }
}

/// A one-element sequence holding `label` followed by `o`'s text when `o` is
/// present, the empty sequence otherwise.
pub open spec fn labelled(o: Option<String>, label: Seq<char>) -> Seq<Seq<char>> {
    match o {
        Some(s) => seq![label + s@],
        None => Seq::empty(),
    }
}

/// The parts shown in `All` mode: the original, then each present
/// enrichment in the order english, furigana, romaji.
pub open spec fn all_parts(r: TranslationResult) -> Seq<Seq<char>> {
    seq![r.original@] + labelled(r.english, Seq::empty()) + labelled(r.furigana, Seq::empty())
        + labelled(r.romaji, Seq::empty())
}

/// The lines shown in `Debug` mode: the original, then each present field
/// with its label.
pub open spec fn debug_parts(r: TranslationResult) -> Seq<Seq<char>> {
    seq![r.original@] + labelled(r.english, "en: "@) + labelled(r.furigana, "furigana: "@)
        + labelled(r.romaji, "romaji: "@) + labelled(r.top_xy, "top: "@) + labelled(
        r.bot_xy,
        "bot: "@,
    ) + labelled(r.debug_info, "debug: "@)
}

/// How a single result is shown in the given mode.
pub open spec fn overlay_entry(r: TranslationResult, mode: OverlayRenderMode) -> Seq<char> {
    match mode {
        OverlayRenderMode::Original => r.original@,
        OverlayRenderMode::English => or_else(r.english, r.original@),
        OverlayRenderMode::Furigana => or_else(r.furigana, or_else(r.romaji, r.original@)),
        OverlayRenderMode::Romaji => or_else(r.romaji, r.original@),
        OverlayRenderMode::All => join_seqs(all_parts(r), "  |  "@),
        OverlayRenderMode::Debug => join_seqs(debug_parts(r), "\n"@),
    }
}

/// The overlay text for a list of results: the entries separated by a
/// `---` line.
pub open spec fn overlay_text(results: Seq<TranslationResult>, mode: OverlayRenderMode) -> Seq<char> {
    join_seqs(results.map_values(|r: TranslationResult| overlay_entry(r, mode)), "\n---\n"@)
}

fn text_or(o: &Option<String>, fallback: &String) -> (res: String)
    ensures
        res@ == or_else(*o, fallback@),
{
    match o {
        Some(s) => s.clone(),
        None => fallback.clone(),
    }
}

fn push_labelled(parts: &mut Vec<String>, o: &Option<String>, label: &str)
    ensures
        string_views(final(parts)@) =~= string_views(old(parts)@) + labelled(*o, label@),
{
    let ghost before = parts@;
    match o {
        Some(s) => {
            let mut p = String::new();
            p.append(label);
            p.append(s.as_str());
            parts.push(p);
            assert(string_views(parts@) =~= string_views(before) + seq![label@ + s@]);
        },
        None => {
            assert(labelled(*o, label@) =~= Seq::<Seq<char>>::empty());
        },
    }
}

/// Renders one result as the overlay shows it in `mode`.
pub fn overlay_entry_text(r: &TranslationResult, mode: &OverlayRenderMode) -> (res: String)
    ensures
        res@ == overlay_entry(*r, *mode),
        *mode == OverlayRenderMode::Original ==> res@ == r.original@,
        *mode == OverlayRenderMode::English ==> res@ == (match r.english {
            Some(e) => e@,
            None => r.original@,
        }),
        *mode == OverlayRenderMode::Romaji ==> res@ == (match r.romaji {
            Some(x) => x@,
            None => r.original@,
        }),
        *mode == OverlayRenderMode::Furigana ==> res@ == (match r.furigana {
            Some(f) => f@,
            None => match r.romaji {
                Some(x) => x@,
                None => r.original@,
            },
        }),
{
    match mode {
        OverlayRenderMode::Original => r.original.clone(),
        OverlayRenderMode::English => text_or(&r.english, &r.original),
        OverlayRenderMode::Furigana => {
            match &r.furigana {
                Some(f) => f.clone(),
                None => text_or(&r.romaji, &r.original),
            }
        },
        OverlayRenderMode::Romaji => text_or(&r.romaji, &r.original),
        OverlayRenderMode::All => {
            let mut parts: Vec<String> = Vec::new();
            parts.push(r.original.clone());
            assert(string_views(parts@) =~= seq![r.original@]);
            push_labelled(&mut parts, &r.english, "");
            push_labelled(&mut parts, &r.furigana, "");
            push_labelled(&mut parts, &r.romaji, "");
            proof {
                assert(""@ =~= Seq::<char>::empty()) by {
                    reveal_strlit("");
                }
                assert(string_views(parts@) =~= all_parts(*r));
            }
            join_strings(&parts, "  |  ")
        },
        OverlayRenderMode::Debug => {
            let mut parts: Vec<String> = Vec::new();
            parts.push(r.original.clone());
            assert(string_views(parts@) =~= seq![r.original@]);
            push_labelled(&mut parts, &r.english, "en: ");
            push_labelled(&mut parts, &r.furigana, "furigana: ");
            push_labelled(&mut parts, &r.romaji, "romaji: ");
            push_labelled(&mut parts, &r.top_xy, "top: ");
            push_labelled(&mut parts, &r.bot_xy, "bot: ");
            push_labelled(&mut parts, &r.debug_info, "debug: ");
            assert(string_views(parts@) =~= debug_parts(*r));
            join_strings(&parts, "\n")
        },
    }
}

/// Formats OCR results for the HUD overlay according to the configured
/// render mode; entries are separated by a `---` line.
pub fn format_for_overlay(results: &[TranslationResult], mode: &OverlayRenderMode) -> (res: String)
    ensures
        res@ == overlay_text(results@, *mode),
{
    let mut entries: Vec<String> = Vec::new();
    let n = results.len();
    let mut i: usize = 0;
    while i < n
        invariant
            n == results@.len(),
            i <= n,
            entries@.len() == i,
            forall|j: int|
                0 <= j < i ==> #[trigger] entries@[j]@ == overlay_entry(results@[j], *mode),
        decreases n - i,
    {
        let e = overlay_entry_text(&results[i], mode);
        entries.push(e);
        i = i + 1;
    }
    let res = join_strings(&entries, "\n---\n");
    assert(string_views(entries@) =~= results@.map_values(
        |r: TranslationResult| overlay_entry(r, *mode),
    ));
    res
}

/// In English mode a result shows its translation, or exactly its original
/// text when it has none; its furigana and romaji play no part. Likewise
/// Original mode shows the original text whatever else is known.
pub proof fn law_english_mode_falls_back_to_original(r: TranslationResult)
    ensures
        overlay_text(seq![r], OverlayRenderMode::English) == (match r.english {
            Some(e) => e@,
            None => r.original@,
        }),
        overlay_text(seq![r], OverlayRenderMode::English) == overlay_text(
            seq![TranslationResult { furigana: None, romaji: None, ..r }],
            OverlayRenderMode::English,
        ),
        overlay_text(seq![r], OverlayRenderMode::Original) == r.original@,
{
    let f = |x: TranslationResult| overlay_entry(x, OverlayRenderMode::English);
    let g = |x: TranslationResult| overlay_entry(x, OverlayRenderMode::Original);
    let r2 = TranslationResult { furigana: None, romaji: None, ..r };
    assert(seq![r].map_values(f) =~= seq![overlay_entry(r, OverlayRenderMode::English)]);
    assert(seq![r2].map_values(f) =~= seq![overlay_entry(r2, OverlayRenderMode::English)]);
    assert(seq![r].map_values(g) =~= seq![r.original@]);
}

/// In All mode the present parts follow the original separated by
/// `  |  `, and in Debug mode each present field follows on its own line
/// with its label; a result with nothing but its original text shows just
/// that text in every mode.
pub proof fn law_all_and_debug_layout(r: TranslationResult, e: String)
    ensures
        r.english is None && r.furigana is None && r.romaji is None ==> overlay_entry(
            r,
            OverlayRenderMode::All,
        ) == r.original@,
        r.english is None && r.furigana is None && r.romaji is None && r.top_xy is None && r.bot_xy is None
            && r.debug_info is None ==> overlay_entry(r, OverlayRenderMode::Debug) == r.original@,
        r.english == Some(e) && r.furigana is None && r.romaji is None ==> overlay_entry(
            r,
            OverlayRenderMode::All,
        ) == r.original@ + "  |  "@ + e@,
        r.english == Some(e) && r.furigana is None && r.romaji is None && r.top_xy is None && r.bot_xy is None
            && r.debug_info is None ==> overlay_entry(r, OverlayRenderMode::Debug) == r.original@ + "\n"@
            + "en: "@ + e@,
{
    if r.english is None && r.furigana is None && r.romaji is None {
        assert(all_parts(r) =~= seq![r.original@]);
    }
    if r.english is None && r.furigana is None && r.romaji is None && r.top_xy is None && r.bot_xy is None
        && r.debug_info is None {
        assert(debug_parts(r) =~= seq![r.original@]);
    }
    if r.english == Some(e) && r.furigana is None && r.romaji is None {
        assert(all_parts(r) =~= seq![r.original@, Seq::<char>::empty() + e@]);
        assert(all_parts(r).drop_last() =~= seq![r.original@]);
        assert(Seq::<char>::empty() + e@ =~= e@);
        assert(join_seqs(all_parts(r).drop_last(), "  |  "@) == r.original@);
        assert(all_parts(r).last() == e@);
        assert(join_seqs(all_parts(r), "  |  "@) == r.original@ + "  |  "@ + e@);
    }
    if r.english == Some(e) && r.furigana is None && r.romaji is None && r.top_xy is None && r.bot_xy is None
        && r.debug_info is None {
        assert(debug_parts(r) =~= seq![r.original@, "en: "@ + e@]);
        assert(debug_parts(r).drop_last() =~= seq![r.original@]);
        assert(join_seqs(debug_parts(r).drop_last(), "\n"@) == r.original@);
        assert(debug_parts(r).last() == "en: "@ + e@);
        assert(join_seqs(debug_parts(r), "\n"@) == r.original@ + "\n"@ + ("en: "@ + e@));
        assert(r.original@ + "\n"@ + ("en: "@ + e@) =~= r.original@ + "\n"@ + "en: "@ + e@);
    }
}

/// Each result is rendered on its own, in input order, separated by
/// exactly one `---` line: rendering two non-empty lists one after the other
/// is rendering each and joining the two with that separator.
pub proof fn law_overlay_concat(xs: Seq<TranslationResult>, ys: Seq<TranslationResult>, mode: OverlayRenderMode)
    requires
        xs.len() >= 1,
        ys.len() >= 1,
    ensures
        overlay_text(xs + ys, mode) == overlay_text(xs, mode) + "\n---\n"@ + overlay_text(ys, mode),
{
    let f = |r: TranslationResult| overlay_entry(r, mode);
    assert((xs + ys).map_values(f) =~= xs.map_values(f) + ys.map_values(f));
    lemma_join_concat(xs.map_values(f), ys.map_values(f), "\n---\n"@);
}

} // verus!
