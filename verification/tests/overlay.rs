use lenzu::overlay::{format_for_overlay, overlay_entry_text, OverlayRenderMode, TranslationResult};

fn full() -> TranslationResult {
    TranslationResult {
        original: "食べる".to_string(),
        english: Some("to eat".to_string()),
        furigana: Some("食[た]べる".to_string()),
        romaji: Some("taberu".to_string()),
        top_xy: Some("1,2".to_string()),
        bot_xy: Some("3,4".to_string()),
        debug_info: Some("d".to_string()),
    }
}

fn bare() -> TranslationResult {
    TranslationResult { original: "猫".to_string(), ..Default::default() }
}

#[test]
fn original_mode_joins_originals() {
    let out = format_for_overlay(&[full(), bare()], &OverlayRenderMode::Original);
    assert_eq!(out, "食べる\n---\n猫");
}

#[test]
fn english_mode_falls_back_to_original() {
    let out = format_for_overlay(&[full(), bare()], &OverlayRenderMode::English);
    assert_eq!(out, "to eat\n---\n猫");
}

#[test]
fn furigana_mode_falls_back_to_romaji_then_original() {
    let mut r = bare();
    r.romaji = Some("neko".to_string());
    let out = format_for_overlay(&[full(), r, bare()], &OverlayRenderMode::Furigana);
    assert_eq!(out, "食[た]べる\n---\nneko\n---\n猫");
}

#[test]
fn romaji_mode() {
    let out = format_for_overlay(&[full(), bare()], &OverlayRenderMode::Romaji);
    assert_eq!(out, "taberu\n---\n猫");
}

#[test]
fn all_mode_lists_present_parts() {
    assert_eq!(
        overlay_entry_text(&full(), &OverlayRenderMode::All),
        "食べる  |  to eat  |  食[た]べる  |  taberu"
    );
    let mut r = bare();
    r.romaji = Some("neko".to_string());
    assert_eq!(overlay_entry_text(&r, &OverlayRenderMode::All), "猫  |  neko");
}

#[test]
fn debug_mode_labels_every_field() {
    assert_eq!(
        overlay_entry_text(&full(), &OverlayRenderMode::Debug),
        "食べる\nen: to eat\nfurigana: 食[た]べる\nromaji: taberu\ntop: 1,2\nbot: 3,4\ndebug: d"
    );
    assert_eq!(overlay_entry_text(&bare(), &OverlayRenderMode::Debug), "猫");
}

#[test]
fn no_results_give_empty_text() {
    assert_eq!(format_for_overlay(&[], &OverlayRenderMode::All), "");
}
