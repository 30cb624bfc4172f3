use lenzu::lens::{
    capture_rect, classify_clicks, is_fullscreen_scan, lens_origin, scan_key_events, HudEdge,
    KeyEdges, KeyScan, LensState, OcrMeta, KEYCODE_ESC, KEYCODE_H, KEYCODE_TAB,
};
use lenzu::overlay::{OverlayRenderMode, TranslationResult};

const LONG_AGO: u128 = 10_000_000_000;

fn state() -> LensState<&'static str> {
    LensState::new(Some("ja".to_string()), Some("en".to_string()))
}

fn no_edges() -> KeyEdges {
    KeyEdges { esc_was_down: false, h_was_down: false, tab_was_down: false }
}

fn result(original: &str, english: Option<&str>) -> TranslationResult {
    TranslationResult {
        original: original.to_string(),
        english: english.map(|e| e.to_string()),
        ..Default::default()
    }
}

fn meta(preview: bool) -> OcrMeta {
    OcrMeta { backend: "ollama".to_string(), elapsed_ms: 1234, preview }
}

#[test]
fn cancel_inflight_hands_back_task_and_bumps_generation() {
    let mut s = state();
    s.set_in_flight("task");
    assert_eq!(s.cancel_inflight(), Some("task"));
    assert_eq!(s.current_generation, 1);
    assert!(s.in_flight.is_none());
    assert_eq!(s.cancel_inflight(), None);
    assert_eq!(s.current_generation, 2);
}

#[test]
fn generation_wraps_around() {
    let mut s = state();
    s.current_generation = u64::MAX;
    s.cancel_inflight();
    assert_eq!(s.current_generation, 0);
}

#[test]
fn stale_result_is_dropped() {
    let mut s = state();
    s.is_loading = true;
    s.set_in_flight("task");
    s.cancel_inflight();
    let r: Result<(Vec<TranslationResult>, OcrMeta), String> =
        Ok((vec![result("猫", Some("cat"))], meta(false)));
    assert!(s.on_result(0, &r, true, &OverlayRenderMode::English).is_none());
    assert!(s.is_loading);
    assert_eq!(s.ocr_result, "");
}

#[test]
fn final_result_updates_state_and_effects() {
    let mut s = state();
    s.is_loading = true;
    let r: Result<(Vec<TranslationResult>, OcrMeta), String> =
        Ok((vec![result(" 猫 ", Some("cat ")), result("犬", None)], meta(false)));
    let fx = s.on_result(0, &r, true, &OverlayRenderMode::English).unwrap();
    assert!(!s.is_loading);
    assert_eq!(s.status, "SUCCESS (2 items)");
    assert_eq!(s.ocr_result, "cat \n犬");
    assert!(fx.reset_last_capture);
    assert_eq!(fx.overlay_text.as_deref(), Some("cat \n---\n犬"));
    assert_eq!(fx.clipboard_text.as_deref(), Some(" 猫 \n犬"));
    let h = fx.history.unwrap();
    assert_eq!(h.backend, "ollama");
    assert_eq!(h.elapsed_ms, 1234);
    assert_eq!(h.original, "猫  / 犬");
    assert_eq!(h.english, "cat \n犬");
}

#[test]
fn preview_result_keeps_loading_and_skips_clipboard() {
    let mut s = state();
    s.is_loading = true;
    let r: Result<(Vec<TranslationResult>, OcrMeta), String> =
        Ok((vec![result("猫", None)], meta(true)));
    let fx = s.on_result(0, &r, false, &OverlayRenderMode::English).unwrap();
    assert!(s.is_loading);
    assert_eq!(s.status, "OCR done (1 items) — enriching…");
    assert!(!fx.reset_last_capture);
    assert!(fx.overlay_text.is_none());
    assert!(fx.clipboard_text.is_none());
    assert!(fx.history.is_none());
}

#[test]
fn blank_translation_is_not_logged() {
    let mut s = state();
    let r: Result<(Vec<TranslationResult>, OcrMeta), String> =
        Ok((vec![result("猫", Some(" \t\u{3000}"))], meta(false)));
    let fx = s.on_result(0, &r, true, &OverlayRenderMode::Original).unwrap();
    assert!(fx.history.is_none());
    assert_eq!(fx.clipboard_text.as_deref(), Some("猫"));
}

#[test]
fn error_result_reports_api_error() {
    let mut s = state();
    s.is_loading = true;
    let r: Result<(Vec<TranslationResult>, OcrMeta), String> = Err("timeout".to_string());
    let fx = s.on_result(0, &r, true, &OverlayRenderMode::English).unwrap();
    assert!(!s.is_loading);
    assert_eq!(s.status, "API Error: timeout");
    assert!(fx.reset_last_capture);
    assert!(fx.overlay_text.is_none());
}

#[test]
fn scan_reports_keys_and_last_escape_state() {
    let scan = scan_key_events(&vec![(KEYCODE_ESC, 0), (KEYCODE_H, 1), (KEYCODE_ESC, 1), (99, 0)]);
    assert_eq!(scan, KeyScan { esc: true, esc_state: 1, h: true, tab: false });
    let none = scan_key_events(&vec![]);
    assert_eq!(none, KeyScan { esc: false, esc_state: 0, h: false, tab: false });
}

#[test]
fn escape_cancels_and_resets_status() {
    let mut s = state();
    s.is_loading = true;
    s.status = "CAPTURING...".to_string();
    s.set_in_flight("task");
    let mut edges = no_edges();
    let scan = KeyScan { esc: true, esc_state: 0, h: false, tab: false };
    let r = s.on_keys(&mut edges, &scan, LONG_AGO, LONG_AGO, LONG_AGO);
    assert!(!r.quit && r.esc_fired && !r.help_fired && !r.tab_fired);
    assert_eq!(r.aborted, Some("task"));
    assert!(!s.is_loading);
    assert_eq!(s.current_generation, 1);
    assert_eq!(s.status, "🇯🇵→🇺🇸 | Shift+Click | Ctrl+Shift+Click | Shift+H:ヘルプ | ESC");
    assert!(edges.esc_was_down);
}

#[test]
fn shift_escape_quits_without_changes() {
    let mut s = state();
    s.set_in_flight("task");
    let mut edges = no_edges();
    let scan = KeyScan { esc: true, esc_state: 1, h: true, tab: true };
    let r = s.on_keys(&mut edges, &scan, LONG_AGO, LONG_AGO, LONG_AGO);
    assert!(r.quit);
    assert!(r.aborted.is_none());
    assert_eq!(s.current_generation, 0);
    assert_eq!(edges, no_edges());
}

#[test]
fn held_key_and_debounce_do_not_refire() {
    let mut s = state();
    let mut edges = KeyEdges { esc_was_down: true, h_was_down: false, tab_was_down: false };
    let scan = KeyScan { esc: true, esc_state: 0, h: true, tab: false };
    let r = s.on_keys(&mut edges, &scan, LONG_AGO, 100_000_000, LONG_AGO);
    assert!(!r.esc_fired && !r.help_fired);
    assert_eq!(s.current_generation, 0);
    assert!(edges.esc_was_down && edges.h_was_down);
}

#[test]
fn shift_tab_toggles_direction_twice_back() {
    let mut s = state();
    let scan = KeyScan { esc: false, esc_state: 0, h: false, tab: true };
    let mut edges = no_edges();
    let r = s.on_keys(&mut edges, &scan, LONG_AGO, LONG_AGO, LONG_AGO);
    assert!(r.tab_fired);
    assert_eq!(s.translate_src.as_deref(), Some("en"));
    assert_eq!(s.translate_dest.as_deref(), Some("ja"));
    assert_eq!(s.status, "🇺🇸→🇯🇵 | Shift+Click | Ctrl+Shift+Click | Shift+H:ヘルプ | ESC");
    let mut edges = no_edges();
    s.on_keys(&mut edges, &scan, LONG_AGO, LONG_AGO, LONG_AGO);
    assert_eq!(s.translate_src.as_deref(), Some("ja"));
    assert_eq!(s.translate_dest.as_deref(), Some("en"));
}

#[test]
fn all_three_combos_in_one_poll() {
    let mut s = state();
    s.set_in_flight("task");
    let scan = KeyScan { esc: true, esc_state: 0, h: true, tab: true };
    let mut edges = no_edges();
    let r = s.on_keys(&mut edges, &scan, LONG_AGO, LONG_AGO, LONG_AGO);
    assert!(r.esc_fired && r.help_fired && r.tab_fired);
    assert_eq!(r.aborted, Some("task"));
    assert_eq!(s.current_generation, 3);
    assert_eq!(s.translate_src.as_deref(), Some("en"));
}

#[test]
fn click_supersedes_and_debounces() {
    let mut s = state();
    s.is_loading = true;
    s.set_in_flight("old");
    let c = s.begin_capture(true, 500_000_000);
    assert_eq!(c.aborted, Some("old"));
    assert!(!c.capture);
    assert!(!s.is_loading);
    assert_eq!(s.current_generation, 1);
    let c = s.begin_capture(true, LONG_AGO);
    assert!(c.capture && c.aborted.is_none());
    assert!(s.is_loading);
    assert_eq!(s.status, "CAPTURING (remote)...");
    let c = s.begin_capture(false, LONG_AGO);
    assert!(c.capture);
    assert_eq!(s.status, "CAPTURING...");
    s.capture_failed();
    assert!(!s.is_loading);
    assert_eq!(s.status, "Capture Failed");
}

#[test]
fn lens_visibility() {
    let mut s = state();
    assert!(s.lens_visible(1, LONG_AGO, 3));
    assert!(!s.lens_visible(0, LONG_AGO, 3));
    assert!(s.lens_visible(0, 2_999_999_999, 3));
    assert!(!s.lens_visible(0, 3_000_000_000, 3));
    s.is_loading = true;
    assert!(s.lens_visible(0, LONG_AGO, 3));
}

#[test]
fn hud_moves_with_hysteresis() {
    let mut s = state();
    assert_eq!(s.reposition_hud(500, 1000), None);
    assert_eq!(s.reposition_hud(800, 1000), Some(HudEdge::Top));
    assert!(s.hud_at_top);
    assert_eq!(s.reposition_hud(800, 1000), None);
    assert_eq!(s.reposition_hud(500, 1000), None);
    assert_eq!(s.reposition_hud(700, 1000), None);
    assert_eq!(s.reposition_hud(299, 1000), Some(HudEdge::Bottom));
    assert!(!s.hud_at_top);
    assert_eq!(s.reposition_hud(900, 0), None);
    assert_eq!(HudEdge::Top.as_str(), "top");
    assert_eq!(HudEdge::Bottom.as_str(), "bottom");
}

#[test]
fn click_classification() {
    let (shift, remote) = classify_clicks(&vec![(1, 1)]);
    assert!(shift && !remote);
    let (shift, remote) = classify_clicks(&vec![(3, 5), (1, 5)]);
    assert!(shift && remote);
    let (shift, remote) = classify_clicks(&vec![(1, 4), (2, 1)]);
    assert!(!shift && !remote);
}

#[test]
fn capture_geometry() {
    assert_eq!(lens_origin(500, 400, 300), (350, 250));
    assert_eq!(lens_origin(0, 0, 301), (-150, -150));
    assert!(is_fullscreen_scan(true, true));
    assert!(!is_fullscreen_scan(true, false));
    let r = capture_rect(false, None, 100, 400, 300);
    assert_eq!((r.x, r.y, r.w, r.h, r.cursor_x, r.cursor_y), (0, 250, 300, 300, 100, 150));
    let r = capture_rect(true, None, 100, 400, 300);
    assert_eq!((r.x, r.y, r.w, r.h, r.cursor_x, r.cursor_y), (0, 0, 1920, 1080, 100, 400));
    let r = capture_rect(true, Some((2560, 1440)), 10, 20, 300);
    assert_eq!((r.w, r.h), (2560, 1440));
}

#[test]
fn language_without_code_shows_globe() {
    let s: LensState<u8> = LensState::new(None, Some("ko".to_string()));
    assert_eq!(s.status, "🌐→🇰🇷 | Shift+Click | Ctrl+Shift+Click | Shift+H:ヘルプ | ESC");
}
