//! The lens's interactive state and the decisions of its 16 ms poll loop and
//! of the OCR result receiver: which key combos fire, when the HUD moves,
//! when a capture starts, and how a result (or a stale one) changes what is
//! shown. Timing, X11, GTK and the OCR task itself stay outside the library;
//! they hand in elapsed times and events and carry out the returned actions.

use vstd::prelude::*;
use vstd::string::*;
use crate::lang::{ready_status_for_codes, ready_status_of};
use crate::overlay::{format_for_overlay, or_else, overlay_text, OverlayRenderMode, TranslationResult};
use crate::lang::opt_str_view;
use crate::text::{
    decimal, join_seqs, join_strings, opt_string_view, push_decimal, string_views, trim, trim_str,
};

verus! {

/// X11 keycode of Escape.
pub const KEYCODE_ESC: u8 = 9;

/// X11 keycode of H.
pub const KEYCODE_H: u8 = 43;

/// X11 keycode of Tab.
pub const KEYCODE_TAB: u8 = 23;

/// X11 modifier bit of Shift.
pub const SHIFT_MASK: u16 = 1;

/// X11 modifier bit of Caps Lock.
pub const LOCK_MASK: u16 = 2;

/// X11 modifier bit of Control.
pub const CONTROL_MASK: u16 = 4;

/// X11 modifier bit of Mod2 (Num Lock).
pub const MOD2_MASK: u16 = 16;

/// A key combo fires at most once per 200 ms.
pub const KEY_DEBOUNCE_NS: u128 = 200_000_000;

/// Two captures are at least one second apart.
pub const CAPTURE_DEBOUNCE_NS: u128 = 1_000_000_000;

/// Metadata of an OCR result: which backend produced it, how long OCR took,
/// and whether it is a preview that more results will follow.
#[derive(Clone, Debug)]
pub struct OcrMeta {
    pub backend: String,
    pub elapsed_ms: u128,
    pub preview: bool,
}

/// The mutable state of the lens that its decisions read and change.
/// `H` is the handle of the OCR task in flight, if any.
pub struct LensState<H> {
    pub is_loading: bool,
    pub status: String,
    pub ocr_result: String,
    pub hud_at_top: bool,
    pub current_generation: u64,
    pub in_flight: Option<H>,
    /// ISO 639-1 code of the source language (`None` when it has none).
    pub translate_src: Option<String>,
    /// ISO 639-1 code of the target language (`None` when it has none).
    pub translate_dest: Option<String>,
}

/// The mathematical content of a `LensState`.
pub struct LensView<H> {
    pub is_loading: bool,
    pub status: Seq<char>,
    pub ocr_result: Seq<char>,
    pub hud_at_top: bool,
    pub generation: u64,
    pub in_flight: Option<H>,
    pub src: Option<Seq<char>>,
    pub dest: Option<Seq<char>>,
}

impl<H> View for LensState<H> {
    type V = LensView<H>;

    open spec fn view(&self) -> LensView<H> {
        LensView {
            is_loading: self.is_loading,
            status: self.status@,
            ocr_result: self.ocr_result@,
            hud_at_top: self.hud_at_top,
            generation: self.current_generation,
            in_flight: self.in_flight,
            src: opt_string_view(self.translate_src),
            dest: opt_string_view(self.translate_dest),
        }
    }
}

fn opt_as_str(o: &Option<String>) -> (r: Option<&str>)
    ensures
        opt_str_view(r) == opt_string_view(*o),
{
    match o {
        Some(s) => Some(s.as_str()),
        None => None,
    }
}

/// The generation after `g`: one more, wrapping around at `u64::MAX`.
pub open spec fn next_generation(g: u64) -> u64 {
    if g == u64::MAX {
        0
    } else {
        (g + 1) as u64
    }
}

/// The state after the in-flight OCR task is cancelled: no task, and a new
/// generation, so that whatever the old task still delivers is ignored.
pub open spec fn cancelled<H>(v: LensView<H>) -> LensView<H> {
    LensView { in_flight: None, generation: next_generation(v.generation), ..v }
}

/// Escape: cancel, stop loading, show the idle status line.
pub open spec fn after_escape<H>(v: LensView<H>) -> LensView<H> {
    LensView {
        is_loading: false,
        status: ready_status_of(v.src, v.dest),
        ..cancelled(v)
    }
}

/// Shift+H: cancel and stop loading (the help dialog opens).
pub open spec fn after_help<H>(v: LensView<H>) -> LensView<H> {
    LensView { is_loading: false, ..cancelled(v) }
}

/// Shift+Tab: cancel, stop loading, swap the translation direction and show
/// the idle status line for the new direction.
pub open spec fn after_toggle<H>(v: LensView<H>) -> LensView<H> {
    LensView {
        is_loading: false,
        src: v.dest,
        dest: v.src,
        status: ready_status_of(v.dest, v.src),
        ..cancelled(v)
    }
}

impl<H> LensState<H> {
    /// The state at start-up: idle, generation 0, nothing in flight.
    pub fn new(src: Option<String>, dest: Option<String>) -> (s: Self)
        ensures
            s@.is_loading == false,
            s@.status == ready_status_of(opt_string_view(src), opt_string_view(dest)),
            s@.ocr_result == Seq::<char>::empty(),
            s@.hud_at_top == false,
            s@.generation == 0,
            s@.in_flight is None,
            s@.src == opt_string_view(src),
            s@.dest == opt_string_view(dest),
    {
        LensState {
            is_loading: false,
            status: ready_status_for_codes(opt_as_str(&src), opt_as_str(&dest)),
            ocr_result: String::new(),
            hud_at_top: false,
            current_generation: 0,
            in_flight: None,
            translate_src: src,
            translate_dest: dest,
        }
    }

    /// Cancel any in-flight OCR task and advance the generation counter.
    /// Returns the task's handle, for the caller to abort.
    pub fn cancel_inflight(&mut self) -> (aborted: Option<H>)
        ensures
            aborted == old(self)@.in_flight,
            final(self)@ == cancelled(old(self)@),
    {
        let aborted = self.in_flight.take();
        self.current_generation = self.current_generation.wrapping_add(1);
        aborted
    }
}


/// Which combo keys the polled key events contain, and the modifier state
/// of the last Escape press among them.
#[derive(Clone, Copy, Debug, PartialEq, Eq, Structural)]
pub struct KeyScan {
    pub esc: bool,
    pub esc_state: u16,
    pub h: bool,
    pub tab: bool,
}

/// Whether a key press with keycode `kc` occurs in `events`.
pub open spec fn key_seen(events: Seq<(u8, u16)>, kc: u8) -> bool {
    exists|i: int| 0 <= i < events.len() && (#[trigger] events[i]).0 == kc
}

/// The modifier state of the last press of `kc` in `events` (0 when none).
pub open spec fn last_state_of(events: Seq<(u8, u16)>, kc: u8) -> u16
    decreases events.len(),
{
    if events.len() == 0 {
        0
    } else if events.last().0 == kc {
        events.last().1
    } else {
        last_state_of(events.drop_last(), kc)
    }
}

/// What `scan_key_events` reports for a list of (keycode, state) presses.
pub open spec fn scan_of(events: Seq<(u8, u16)>) -> KeyScan {
    KeyScan {
        esc: key_seen(events, KEYCODE_ESC),
        esc_state: last_state_of(events, KEYCODE_ESC),
        h: key_seen(events, KEYCODE_H),
        tab: key_seen(events, KEYCODE_TAB),
    }
}

/// Summarises the key presses polled from the passive grabs.
pub fn scan_key_events(events: &Vec<(u8, u16)>) -> (scan: KeyScan)
    ensures
        scan == scan_of(events@),
{
    let mut scan = KeyScan { esc: false, esc_state: 0, h: false, tab: false };
    let n = events.len();
    let mut i: usize = 0;
    while i < n
        invariant
            n == events@.len(),
            i <= n,
            scan == scan_of(events@.take(i as int)),
        decreases n - i,
    {
        let (kc, state) = events[i];
        let ghost pre = events@.take(i as int);
        let ghost post = events@.take(i + 1);
        assert(post.drop_last() =~= pre);
        assert(post.last() == events@[i as int]);
        if kc == KEYCODE_ESC {
            scan.esc = true;
            scan.esc_state = state;
        }
        if kc == KEYCODE_H {
            scan.h = true;
        }
        if kc == KEYCODE_TAB {
            scan.tab = true;
        }
        proof {
            assert forall|k: u8| key_seen(post, k) == (key_seen(pre, k) || events@[i as int].0 == k) by {
                if key_seen(post, k) {
                    let j = choose|j: int| 0 <= j < post.len() && (#[trigger] post[j]).0 == k;
                    if j < i {
                        assert(pre[j] == post[j]);
                    }
                }
                if key_seen(pre, k) {
                    let j = choose|j: int| 0 <= j < pre.len() && (#[trigger] pre[j]).0 == k;
                    assert(post[j] == pre[j]);
                }
                if events@[i as int].0 == k {
                    assert(post[i as int] == events@[i as int]);
                }
            }
        }
        i = i + 1;
    }
    assert(events@.take(n as int) =~= events@);
    scan
}

/// Whether each combo key was held at the previous poll (rising-edge
/// detection).
#[derive(Clone, Copy, Debug, PartialEq, Eq, Structural)]
pub struct KeyEdges {
    pub esc_was_down: bool,
    pub h_was_down: bool,
    pub tab_was_down: bool,
}

/// A combo fires on the first poll it is seen in, and only if it has not
/// fired within the debounce interval.
pub open spec fn fires(down: bool, was_down: bool, idle_ns: u128) -> bool {
    down && !was_down && idle_ns > KEY_DEBOUNCE_NS
}

/// What the key combos of one poll did.
pub struct KeyReaction<H> {
    /// Shift+Escape: shut the HUD down and quit.
    pub quit: bool,
    /// Escape fired (its debounce timer restarts).
    pub esc_fired: bool,
    /// Shift+H fired: show the help dialog (its timer restarts).
    pub help_fired: bool,
    /// Shift+Tab fired: the direction was toggled (its timer restarts).
    pub tab_fired: bool,
    /// The OCR task that was in flight and has to be aborted.
    pub aborted: Option<H>,
}

/// The state after the combos that fired, applied in the order Escape,
/// Shift+H, Shift+Tab.
pub open spec fn after_keys<H>(v: LensView<H>, esc: bool, help: bool, tab: bool) -> LensView<H> {
    let v1 = if esc { after_escape(v) } else { v };
    let v2 = if help { after_help(v1) } else { v1 };
    if tab { after_toggle(v2) } else { v2 }
}

impl<H> LensState<H> {
    fn set_ready_status(&mut self)
        ensures
            final(self)@ == (LensView { status: ready_status_of(old(self)@.src, old(self)@.dest), ..old(self)@ }),
    {
        self.status = ready_status_for_codes(opt_as_str(&self.translate_src), opt_as_str(&self.translate_dest));
    }

    /// Reacts to the combo keys of one poll: Escape cancels OCR, Shift+Escape
    /// quits, Shift+H cancels and opens the help, Shift+Tab cancels and
    /// toggles the translation direction. Each combo acts on its rising edge
    /// only, and at most once per debounce interval (`*_idle_ns` is the time
    /// since it last fired).
    pub fn on_keys(
        &mut self,
        edges: &mut KeyEdges,
        scan: &KeyScan,
        esc_idle_ns: u128,
        h_idle_ns: u128,
        tab_idle_ns: u128,
    ) -> (r: KeyReaction<H>)
        ensures
            r.esc_fired == fires(scan.esc, old(edges).esc_was_down, esc_idle_ns),
            r.quit == (r.esc_fired && scan.esc_state & SHIFT_MASK != 0),
            r.quit ==> final(self)@ == old(self)@ && *final(edges) == *old(edges) && !r.help_fired
                && !r.tab_fired && r.aborted is None,
            !r.quit ==> r.help_fired == fires(scan.h, old(edges).h_was_down, h_idle_ns)
                && r.tab_fired == fires(scan.tab, old(edges).tab_was_down, tab_idle_ns)
                && final(self)@ == after_keys(old(self)@, r.esc_fired, r.help_fired, r.tab_fired)
                && *final(edges) == (KeyEdges {
                esc_was_down: scan.esc,
                h_was_down: scan.h,
                tab_was_down: scan.tab,
            }) && r.aborted == (if r.esc_fired || r.help_fired || r.tab_fired {
                old(self)@.in_flight
            } else {
                None
            }),
            !r.quit && (r.esc_fired || r.help_fired || r.tab_fired) ==> !final(self).is_loading
                && final(self).in_flight is None && final(self).current_generation
                != old(self).current_generation && final(self).ocr_result@ == old(self).ocr_result@,
            !r.quit && r.tab_fired ==> final(self)@.src == old(self)@.dest && final(self)@.dest
                == old(self)@.src,
            !r.quit && !r.tab_fired ==> final(self)@.src == old(self)@.src && final(self)@.dest
                == old(self)@.dest,
            !r.quit && (r.esc_fired || r.tab_fired) ==> final(self).status@ == ready_status_of(
                opt_string_view(final(self).translate_src),
                opt_string_view(final(self).translate_dest),
            ),
            !r.esc_fired && !r.help_fired && !r.tab_fired ==> final(self)@ == old(self)@,
    {
        let esc_fired = scan.esc && !edges.esc_was_down && esc_idle_ns > KEY_DEBOUNCE_NS;
        if esc_fired && scan.esc_state & SHIFT_MASK != 0 {
            return KeyReaction {
                quit: true,
                esc_fired: true,
                help_fired: false,
                tab_fired: false,
                aborted: None,
            };
        }
        let mut aborted: Option<H> = None;
        if esc_fired {
            aborted = self.cancel_inflight();
            self.is_loading = false;
            self.set_ready_status();
        }
        let help_fired = scan.h && !edges.h_was_down && h_idle_ns > KEY_DEBOUNCE_NS;
        if help_fired {
            let a = self.cancel_inflight();
            if aborted.is_none() {
                aborted = a;
            }
            self.is_loading = false;
        }
        let tab_fired = scan.tab && !edges.tab_was_down && tab_idle_ns > KEY_DEBOUNCE_NS;
        if tab_fired {
            let a = self.cancel_inflight();
            if aborted.is_none() {
                aborted = a;
            }
            self.is_loading = false;
            let new_src = self.translate_dest.take();
            let new_dest = self.translate_src.take();
            self.translate_src = new_src;
            self.translate_dest = new_dest;
            self.set_ready_status();
        }
        edges.esc_was_down = scan.esc;
        edges.h_was_down = scan.h;
        edges.tab_was_down = scan.tab;
        KeyReaction { quit: false, esc_fired, help_fired, tab_fired, aborted }
    }
}


/// A result's translation, or its original text when there is none.
pub open spec fn english_or_original(r: TranslationResult) -> Seq<char> {
    or_else(r.english, r.original@)
}

/// The translations of all results, one per line.
pub open spec fn combined_english(rs: Seq<TranslationResult>) -> Seq<char> {
    join_seqs(rs.map_values(|r: TranslationResult| english_or_original(r)), "\n"@)
}

/// The original texts of all results, separated by `sep`.
pub open spec fn combined_original(rs: Seq<TranslationResult>, sep: Seq<char>) -> Seq<char> {
    join_seqs(rs.map_values(|r: TranslationResult| r.original@), sep)
}

/// The status line after `n` results arrived.
pub open spec fn result_status(n: nat, preview: bool) -> Seq<char> {
    if preview {
        "OCR done ("@ + decimal(n) + " items) — enriching…"@
    } else {
        "SUCCESS ("@ + decimal(n) + " items)"@
    }
}

/// Joins the translations (or originals) of `results` with newlines.
pub fn combined_english_text(results: &Vec<TranslationResult>) -> (text: String)
    ensures
        text@ == combined_english(results@),
{
    let mut parts: Vec<String> = Vec::new();
    let n = results.len();
    let mut i: usize = 0;
    while i < n
        invariant
            n == results@.len(),
            i <= n,
            parts@.len() == i,
            forall|j: int| 0 <= j < i ==> #[trigger] parts@[j]@ == english_or_original(results@[j]),
        decreases n - i,
    {
        let r = &results[i];
        let t = match &r.english {
            Some(e) => e.clone(),
            None => r.original.clone(),
        };
        parts.push(t);
        i = i + 1;
    }
    assert(string_views(parts@) =~= results@.map_values(
        |r: TranslationResult| english_or_original(r),
    ));
    join_strings(&parts, "\n")
}

/// Joins the original texts of `results` with `sep`.
pub fn combined_original_text(results: &Vec<TranslationResult>, sep: &str) -> (text: String)
    ensures
        text@ == combined_original(results@, sep@),
{
    let mut parts: Vec<String> = Vec::new();
    let n = results.len();
    let mut i: usize = 0;
    while i < n
        invariant
            n == results@.len(),
            i <= n,
            parts@.len() == i,
            forall|j: int| 0 <= j < i ==> #[trigger] parts@[j]@ == results@[j].original@,
        decreases n - i,
    {
        parts.push(results[i].original.clone());
        i = i + 1;
    }
    assert(string_views(parts@) =~= results@.map_values(|r: TranslationResult| r.original@));
    join_strings(&parts, sep)
}

fn result_status_text(n: usize, preview: bool) -> (status: String)
    ensures
        status@ == result_status(n as nat, preview),
{
    let mut status = String::new();
    if preview {
        status.append("OCR done (");
        push_decimal(&mut status, n as u64);
        status.append(" items) — enriching…");
    } else {
        status.append("SUCCESS (");
        push_decimal(&mut status, n as u64);
        status.append(" items)");
    }
    assert(status@ =~= result_status(n as nat, preview));
    status
}

/// What the application does with an OCR result besides the state change.
pub struct ResultEffects {
    /// Restart the result-display timer (final results and errors).
    pub reset_last_capture: bool,
    /// Text to send to the HUD overlay, when the overlay is enabled.
    pub overlay_text: Option<String>,
    /// Text to put on the clipboard (final results only).
    pub clipboard_text: Option<String>,
    /// Line to append to the OCR history (final results with a non-blank
    /// translation only).
    pub history: Option<HistoryEntry>,
}

/// The parts of one OCR history line.
pub struct HistoryEntry {
    pub backend: String,
    pub elapsed_ms: u128,
    /// The originals joined by ` / `, trimmed.
    pub original: String,
    /// The translations joined by newlines, trimmed.
    pub english: String,
}

/// The state after a current-generation result arrived.
pub open spec fn after_result<H>(
    v: LensView<H>,
    result: Result<(Vec<TranslationResult>, OcrMeta), String>,
) -> LensView<H> {
    match result {
        Ok((rs, meta)) => LensView {
            is_loading: if meta.preview { v.is_loading } else { false },
            ocr_result: combined_english(rs@),
            status: result_status(rs@.len(), meta.preview),
            ..v
        },
        Err(e) => LensView { is_loading: false, status: "API Error: "@ + e@, ..v },
    }
}

/// Whether `fx` is what a current-generation `result` calls for.
pub open spec fn result_effects_ok(
    fx: ResultEffects,
    result: Result<(Vec<TranslationResult>, OcrMeta), String>,
    overlay_enabled: bool,
    mode: OverlayRenderMode,
) -> bool {
    match result {
        Ok((rs, meta)) => {
            &&& fx.reset_last_capture == !meta.preview
            &&& opt_string_view(fx.overlay_text) == (if overlay_enabled {
                Some(overlay_text(rs@, mode))
            } else {
                None
            })
            &&& opt_string_view(fx.clipboard_text) == (if meta.preview {
                None
            } else {
                Some(combined_original(rs@, "\n"@))
            })
            &&& (fx.history is Some <==> !meta.preview && trim(combined_english(rs@)).len() > 0)
            &&& (fx.history matches Some(h) ==> {
                &&& h.backend@ == meta.backend@
                &&& h.elapsed_ms == meta.elapsed_ms
                &&& h.original@ == trim(combined_original(rs@, " / "@))
                &&& h.english@ == trim(combined_english(rs@))
            })
        },
        Err(_) => {
            &&& fx.reset_last_capture
            &&& fx.overlay_text is None
            &&& fx.clipboard_text is None
            &&& fx.history is None
        },
    }
}

impl<H> LensState<H> {
    /// Takes in an OCR result stamped with the generation it was started
    /// under. A result of an older (cancelled or superseded) generation is
    /// dropped: `None`, and nothing changes. Otherwise the status, the lens
    /// text and the loading flag follow the result, and the returned effects
    /// say what to send to the overlay, the clipboard and the history.
    pub fn on_result(
        &mut self,
        msg_gen: u64,
        result: &Result<(Vec<TranslationResult>, OcrMeta), String>,
        overlay_enabled: bool,
        mode: &OverlayRenderMode,
    ) -> (fx: Option<ResultEffects>)
        ensures
            msg_gen != old(self)@.generation ==> fx is None && final(self)@ == old(self)@,
            msg_gen == old(self)@.generation ==> (fx matches Some(e) && final(self)@ == after_result(
                old(self)@,
                *result,
            ) && result_effects_ok(e, *result, overlay_enabled, *mode)),
            msg_gen == old(self)@.generation ==> (result matches Ok((rs, meta)) ==> {
                &&& final(self).ocr_result@ == join_seqs(
                    rs@.map_values(
                        |r: TranslationResult|
                            match r.english {
                                Some(e) => e@,
                                None => r.original@,
                            },
                    ),
                    "\n"@,
                )
                &&& final(self).is_loading == (old(self).is_loading && meta.preview)
                &&& final(self).in_flight == old(self).in_flight
            }),
            msg_gen == old(self)@.generation ==> (result matches Err(e) ==> {
                &&& !final(self).is_loading
                &&& final(self).status@ == "API Error: "@ + e@
                &&& final(self).ocr_result == old(self).ocr_result
            }),
    {
        if msg_gen != self.current_generation {
            return None;
        }
        match result {
            Ok((results, meta)) => {
                if !meta.preview {
                    self.is_loading = false;
                }
                let english = combined_english_text(results);
                let status = result_status_text(results.len(), meta.preview);
                let overlay = if overlay_enabled {
                    Some(format_for_overlay(results.as_slice(), mode))
                } else {
                    None
                };
                let mut clipboard: Option<String> = None;
                let mut history: Option<HistoryEntry> = None;
                if !meta.preview {
                    clipboard = Some(combined_original_text(results, "\n"));
                    let trimmed_english = trim_str(english.as_str());
                    if trimmed_english.unicode_len() != 0 {
                        let joined = combined_original_text(results, " / ");
                        history = Some(
                            HistoryEntry {
                                backend: meta.backend.clone(),
                                elapsed_ms: meta.elapsed_ms,
                                original: trim_str(joined.as_str()),
                                english: trimmed_english,
                            },
                        );
                    }
                }
                self.ocr_result = english;
                self.status = status;
                proof {
                    let f = |r: TranslationResult|
                        match r.english {
                            Some(e) => e@,
                            None => r.original@,
                        };
                    assert(results@.map_values(|r: TranslationResult| english_or_original(r))
                        =~= results@.map_values(f));
                }
                Some(
                    ResultEffects {
                        reset_last_capture: !meta.preview,
                        overlay_text: overlay,
                        clipboard_text: clipboard,
                        history,
                    },
                )
            },
            Err(e) => {
                self.is_loading = false;
                let mut status = String::new();
                status.append("API Error: ");
                status.append(e.as_str());
                self.status = status;
                Some(
                    ResultEffects {
                        reset_last_capture: true,
                        overlay_text: None,
                        clipboard_text: None,
                        history: None,
                    },
                )
            },
        }
    }
}

/// What a Shift+Click did to the task in flight, and whether it starts a
/// capture.
pub struct CaptureStart<H> {
    /// The OCR task that was in flight and has to be aborted.
    pub aborted: Option<H>,
    /// Whether a new capture starts now.
    pub capture: bool,
}

/// The status line while a capture runs.
pub open spec fn capturing_status(force_remote: bool) -> Seq<char> {
    if force_remote {
        "CAPTURING (remote)..."@
    } else {
        "CAPTURING..."@
    }
}

/// The state after a Shift+Click: a task in flight is superseded (cancelled,
/// loading cleared); then, if the last capture is more than a second ago, a
/// new capture starts loading.
pub open spec fn after_click<H>(v: LensView<H>, force_remote: bool, capture: bool) -> LensView<H> {
    let v1 = if v.in_flight is Some {
        LensView { is_loading: false, ..cancelled(v) }
    } else {
        v
    };
    if capture {
        LensView { is_loading: true, status: capturing_status(force_remote), ..v1 }
    } else {
        v1
    }
}

/// Which edge of the screen the HUD sits at.
#[derive(Clone, Copy, Debug, PartialEq, Eq, Structural)]
pub enum HudEdge {
    Top,
    Bottom,
}

impl HudEdge {
    /// The position word the HUD server understands.
    pub fn as_str(&self) -> (s: &'static str)
        ensures
            s@ == (match *self {
                HudEdge::Top => "top"@,
                HudEdge::Bottom => "bottom"@,
            }),
    {
        match self {
            HudEdge::Top => "top",
            HudEdge::Bottom => "bottom",
        }
    }
}

/// The cursor is in the bottom 30 % of the screen (`y / height > 0.70`).
pub open spec fn in_bottom_zone(y: int, screen_h: int) -> bool {
    screen_h > 0 && 10 * y > 7 * screen_h
}

/// The cursor is in the top 30 % of the screen (`y / height < 0.30`).
pub open spec fn in_top_zone(y: int, screen_h: int) -> bool {
    screen_h > 0 && 10 * y < 3 * screen_h
}

/// The HUD side after the cursor moved to `y`, and the move to send, if any:
/// the HUD flees to the top when the cursor enters the bottom 30 % and back
/// to the bottom when it enters the top 30 %; in between nothing changes.
pub open spec fn reposition(at_top: bool, y: int, screen_h: int) -> (bool, Option<HudEdge>) {
    if in_bottom_zone(y, screen_h) && !at_top {
        (true, Some(HudEdge::Top))
    } else if in_top_zone(y, screen_h) && at_top {
        (false, Some(HudEdge::Bottom))
    } else {
        (at_top, None)
    }
}

impl<H> LensState<H> {
    /// A Shift+Click: supersedes the task in flight, and starts a capture
    /// when the last one is more than a second ago (`since_capture_ns`).
    pub fn begin_capture(&mut self, force_remote: bool, since_capture_ns: u128) -> (r: CaptureStart<H>)
        ensures
            r.aborted == old(self)@.in_flight,
            r.capture == (since_capture_ns > CAPTURE_DEBOUNCE_NS),
            final(self)@ == after_click(old(self)@, force_remote, r.capture),
            final(self).in_flight is None || (old(self).in_flight is None && final(self).in_flight
                == old(self).in_flight),
            old(self).in_flight is Some ==> final(self).current_generation != old(self).current_generation,
            old(self).in_flight is None ==> final(self).current_generation == old(self).current_generation,
            r.capture ==> final(self).is_loading,
            !r.capture ==> final(self).status@ == old(self).status@ && final(self).is_loading == (
            old(self).is_loading && old(self).in_flight is None),
    {
        let mut aborted: Option<H> = None;
        if self.in_flight.is_some() {
            aborted = self.cancel_inflight();
            self.is_loading = false;
        }
        let capture = since_capture_ns > CAPTURE_DEBOUNCE_NS;
        if capture {
            self.status = if force_remote {
                String::from_str("CAPTURING (remote)...")
            } else {
                String::from_str("CAPTURING...")
            };
            self.is_loading = true;
        }
        CaptureStart { aborted, capture }
    }

    /// The screen capture failed: stop loading and say so.
    pub fn capture_failed(&mut self)
        ensures
            final(self)@ == (LensView { is_loading: false, status: "Capture Failed"@, ..old(self)@ }),
    {
        self.is_loading = false;
        self.status = String::from_str("Capture Failed");
    }

    /// Records a freshly spawned OCR task as the one in flight.
    pub fn set_in_flight(&mut self, handle: H)
        ensures
            final(self)@ == (LensView { in_flight: Some(handle), ..old(self)@ }),
    {
        self.in_flight = Some(handle);
    }

    /// Whether the lens is on screen: while Shift is held (`mask` is the
    /// pointer's modifier mask), while OCR runs, and for `display_secs`
    /// after the last capture or result.
    pub fn lens_visible(&self, mask: u16, since_capture_ns: u128, display_secs: u64) -> (visible: bool)
        ensures
            visible == (mask & SHIFT_MASK != 0 || self.is_loading || since_capture_ns
                < display_secs * 1_000_000_000),
    {
        mask & SHIFT_MASK != 0 || self.is_loading || since_capture_ns < (display_secs as u128)
            * 1_000_000_000
    }

    /// Moves the HUD away from the cursor: returns the edge to send when it
    /// has to move. `screen_h` is the screen height in pixels.
    pub fn reposition_hud(&mut self, y: i32, screen_h: i32) -> (cmd: Option<HudEdge>)
        ensures
            (final(self)@.hud_at_top, cmd) == reposition(old(self)@.hud_at_top, y as int, screen_h as int),
            final(self)@ == (LensView { hud_at_top: final(self)@.hud_at_top, ..old(self)@ }),
    {
        let sh = screen_h as i64;
        let yy = y as i64;
        let bottom = sh > 0 && 10 * yy > 7 * sh;
        let top = sh > 0 && 10 * yy < 3 * sh;
        if bottom && !self.hud_at_top {
            self.hud_at_top = true;
            Some(HudEdge::Top)
        } else if top && self.hud_at_top {
            self.hud_at_top = false;
            Some(HudEdge::Bottom)
        } else {
            None
        }
    }
}

/// A Shift+Click is a press of button 1 with Shift held.
pub open spec fn is_shift_click(events: Seq<(u8, u16)>) -> bool {
    exists|i: int|
        0 <= i < events.len() && (#[trigger] events[i]).0 == 1 && events[i].1 & SHIFT_MASK != 0
}

/// A Ctrl+Shift+Click (the force-remote path) is a press of button 1 with
/// Shift and Control held.
pub open spec fn is_force_remote_click(events: Seq<(u8, u16)>) -> bool {
    exists|i: int|
        0 <= i < events.len() && (#[trigger] events[i]).0 == 1 && events[i].1 & SHIFT_MASK != 0
            && events[i].1 & CONTROL_MASK != 0
}

/// Classifies the button presses polled from the passive grabs as
/// (Shift+Click, Ctrl+Shift+Click).
pub fn classify_clicks(events: &Vec<(u8, u16)>) -> (r: (bool, bool))
    ensures
        r.0 == is_shift_click(events@),
        r.1 == is_force_remote_click(events@),
        r.0 == exists|i: int|
            0 <= i < events@.len() && (#[trigger] events@[i]).0 == 1 && events@[i].1 & 1u16 != 0,
        r.1 == exists|i: int|
            0 <= i < events@.len() && (#[trigger] events@[i]).0 == 1 && events@[i].1 & 1u16 != 0
                && events@[i].1 & 4u16 != 0,
{
    let mut shift_click = false;
    let mut force_remote = false;
    let n = events.len();
    let mut i: usize = 0;
    while i < n
        invariant
            n == events@.len(),
            i <= n,
            shift_click == exists|j: int|
                0 <= j < i && (#[trigger] events@[j]).0 == 1 && events@[j].1 & SHIFT_MASK != 0,
            force_remote == exists|j: int|
                0 <= j < i && (#[trigger] events@[j]).0 == 1 && events@[j].1 & SHIFT_MASK != 0
                    && events@[j].1 & CONTROL_MASK != 0,
        decreases n - i,
    {
        let (btn, state) = events[i];
        if btn == 1 && state & SHIFT_MASK != 0 {
            shift_click = true;
            if state & CONTROL_MASK != 0 {
                force_remote = true;
            }
        }
        i = i + 1;
    }
    (shift_click, force_remote)
}

/// `l / 2` rounded toward zero, as Rust's integer division does.
pub open spec fn half_toward_zero(l: int) -> int {
    if l >= 0 {
        l / 2
    } else {
        -((-l) / 2)
    }
}

/// The lens window's top-left corner for a cursor at (`x`, `y`): the lens
/// is centred on the cursor.
pub fn lens_origin(x: i32, y: i32, lens_size: i32) -> (o: (i32, i32))
    requires
        i32::MIN <= x - half_toward_zero(lens_size as int) <= i32::MAX,
        i32::MIN <= y - half_toward_zero(lens_size as int) <= i32::MAX,
    ensures
        o.0 == x - half_toward_zero(lens_size as int),
        o.1 == y - half_toward_zero(lens_size as int),
{
    let half = lens_size / 2;
    (x - half, y - half)
}

/// The screen area a capture grabs, and the cursor position inside it.
#[derive(Clone, Copy, Debug, PartialEq, Eq, Structural)]
pub struct CaptureRect {
    pub x: i32,
    pub y: i32,
    pub w: u32,
    pub h: u32,
    pub cursor_x: u32,
    pub cursor_y: u32,
}

/// A Ctrl+Shift+Click scans the whole screen when a text detector is
/// available to find the text nearest the cursor.
pub fn is_fullscreen_scan(force_remote: bool, has_detector: bool) -> (full: bool)
    ensures
        full == (force_remote && has_detector),
{
    force_remote && has_detector
}

/// The area a capture grabs: the whole screen for a full-screen scan (its
/// size as the display reports it, 1920x1080 when unknown), otherwise the
/// lens square at the lens's position, clamped to the screen's top-left.
/// The cursor position is given relative to the area's origin.
pub fn capture_rect(fullscreen: bool, screen: Option<(u32, u32)>, x: i32, y: i32, lens_size: i32) -> (r: CaptureRect)
    requires
        i32::MIN <= x - half_toward_zero(lens_size as int) <= i32::MAX,
        i32::MIN <= y - half_toward_zero(lens_size as int) <= i32::MAX,
    ensures
        fullscreen ==> r.x == 0 && r.y == 0 && (r.w, r.h) == (match screen {
            Some(s) => s,
            None => (1920u32, 1080u32),
        }),
        !fullscreen ==> r.x == (if x - half_toward_zero(lens_size as int) > 0 {
            x - half_toward_zero(lens_size as int)
        } else {
            0
        }) && r.y == (if y - half_toward_zero(lens_size as int) > 0 {
            y - half_toward_zero(lens_size as int)
        } else {
            0
        }) && r.w == lens_size as u32 && r.h == lens_size as u32,
        r.cursor_x == (x - r.x) as u32,
        r.cursor_y == (y - r.y) as u32,
{
    if fullscreen {
        let (sw, sh) = match screen {
            Some(s) => s,
            None => (1920u32, 1080u32),
        };
        CaptureRect { x: 0, y: 0, w: sw, h: sh, cursor_x: x as u32, cursor_y: y as u32 }
    } else {
        let (win_x, win_y) = lens_origin(x, y, lens_size);
        let cx = if win_x > 0 { win_x } else { 0 };
        let cy = if win_y > 0 { win_y } else { 0 };
        CaptureRect {
            x: cx,
            y: cy,
            w: lens_size as u32,
            h: lens_size as u32,
            cursor_x: (x - cx) as u32,
            cursor_y: (y - cy) as u32,
        }
    }
}

/// A cancelled task's results are stale: cancelling always moves to a
/// different generation.
pub proof fn law_cancel_makes_results_stale<H>(v: LensView<H>)
    ensures
        cancelled(v).generation != v.generation,
{
}

/// Any combo that fires (Escape, Shift+H, Shift+Tab, or several in one
/// poll) leaves the generation of the task it cancelled behind, so that
/// task's results are dropped on arrival.
pub proof fn law_key_actions_make_results_stale<H>(v: LensView<H>, esc: bool, help: bool, tab: bool)
    requires
        esc || help || tab,
    ensures
        after_keys(v, esc, help, tab).generation != v.generation,
        after_keys(v, esc, help, tab).in_flight is None,
{
}

/// A superseding Shift+Click leaves the generation of the task in flight
/// behind.
pub proof fn law_click_supersedes<H>(v: LensView<H>, force_remote: bool, capture: bool)
    requires
        v.in_flight is Some,
    ensures
        after_click(v, force_remote, capture).generation != v.generation,
        after_click(v, force_remote, capture).in_flight is None,
{
}

/// Toggling the translation direction twice restores the direction and the
/// idle status line.
pub proof fn law_toggle_twice_restores_direction<H>(v: LensView<H>)
    ensures
        after_toggle(after_toggle(v)).src == v.src,
        after_toggle(after_toggle(v)).dest == v.dest,
        after_toggle(after_toggle(v)).status == ready_status_of(v.src, v.dest),
        !after_toggle(after_toggle(v)).is_loading,
{
}

/// The HUD position settles: once moved for a cursor position, the same
/// position asks for no further move; and in the dead zone between 30 % and
/// 70 % of the screen height nothing ever moves.
pub proof fn law_reposition_settles(at_top: bool, y: int, screen_h: int)
    ensures
        reposition(reposition(at_top, y, screen_h).0, y, screen_h).1 is None,
        !in_bottom_zone(y, screen_h) && !in_top_zone(y, screen_h) ==> reposition(at_top, y, screen_h)
            == (at_top, None::<HudEdge>),
{
}

/// The lock modifiers (Caps Lock, Num Lock) never change how a click is
/// classified: setting them on every press leaves both the Shift+Click and
/// the Ctrl+Shift+Click verdict as they were.
pub proof fn law_clicks_ignore_lock_bits(events: Seq<(u8, u16)>, lock: u16)
    requires
        lock & 5u16 == 0,
    ensures
        is_shift_click(events.map_values(|e: (u8, u16)| (e.0, e.1 | lock))) == is_shift_click(events),
        is_force_remote_click(events.map_values(|e: (u8, u16)| (e.0, e.1 | lock)))
            == is_force_remote_click(events),
{
    let locked = events.map_values(|e: (u8, u16)| (e.0, e.1 | lock));
    assert forall|s: u16| ((s | lock) & 1u16 == s & 1u16) && ((s | lock) & 4u16 == s & 4u16) by {
        assert(lock & 5u16 == 0 ==> ((s | lock) & 1u16 == s & 1u16) && ((s | lock) & 4u16 == s & 4u16))
            by (bit_vector);
    }
    assert forall|i: int| 0 <= i < events.len() implies #[trigger] locked[i] == (events[i].0, events[i].1 | lock) by {}
    if is_shift_click(events) {
        let i = choose|i: int| 0 <= i < events.len() && (#[trigger] events[i]).0 == 1 && events[i].1 & SHIFT_MASK != 0;
        assert(locked[i].0 == 1 && locked[i].1 & SHIFT_MASK != 0);
    }
    if is_shift_click(locked) {
        let i = choose|i: int| 0 <= i < locked.len() && (#[trigger] locked[i]).0 == 1 && locked[i].1 & SHIFT_MASK != 0;
        assert(events[i].0 == 1 && events[i].1 & SHIFT_MASK != 0);
    }
    if is_force_remote_click(events) {
        let i = choose|i: int|
            0 <= i < events.len() && (#[trigger] events[i]).0 == 1 && events[i].1 & SHIFT_MASK != 0
                && events[i].1 & CONTROL_MASK != 0;
        assert(locked[i].0 == 1 && locked[i].1 & SHIFT_MASK != 0 && locked[i].1 & CONTROL_MASK != 0);
    }
    if is_force_remote_click(locked) {
        let i = choose|i: int|
            0 <= i < locked.len() && (#[trigger] locked[i]).0 == 1 && locked[i].1 & SHIFT_MASK != 0
                && locked[i].1 & CONTROL_MASK != 0;
        assert(events[i].0 == 1 && events[i].1 & SHIFT_MASK != 0 && events[i].1 & CONTROL_MASK != 0);
    }
}

/// A press of button 1 with Shift and Control held is a Ctrl+Shift+Click
/// whatever other modifier bits are set.
pub proof fn law_ctrl_shift_click_any_modifiers(events: Seq<(u8, u16)>, i: int)
    requires
        0 <= i < events.len(),
        events[i].0 == 1,
        events[i].1 & 1u16 != 0,
        events[i].1 & 4u16 != 0,
    ensures
        is_force_remote_click(events),
        is_shift_click(events),
{
}

/// Shift+H (like Escape and Shift+Tab) never leaves the lens loading: the
/// task it cancels can no longer finish the loading state.
pub proof fn law_fired_combo_stops_loading<H>(v: LensView<H>, esc: bool, help: bool, tab: bool)
    requires
        esc || help || tab,
    ensures
        !after_keys(v, esc, help, tab).is_loading,
        after_keys(v, esc, help, tab).ocr_result == v.ocr_result,
{
}

/// Every current-generation result, preview or final, shows its text in the
/// lens at once: each result's translation, or its original when it has
/// none, one per line.
pub proof fn law_result_text_shown<H>(v: LensView<H>, rs: Vec<TranslationResult>, meta: OcrMeta)
    ensures
        after_result(v, Ok((rs, meta))).ocr_result == join_seqs(
            rs@.map_values(
                |r: TranslationResult|
                    match r.english {
                        Some(e) => e@,
                        None => r.original@,
                    },
            ),
            "\n"@,
        ),
{
    let f = |r: TranslationResult|
        match r.english {
            Some(e) => e@,
            None => r.original@,
        };
    assert(rs@.map_values(|r: TranslationResult| english_or_original(r)) =~= rs@.map_values(f));
}

/// The HUD moves to the top exactly when the cursor is below 70 % of the
/// screen height while the HUD is at the bottom, and back to the bottom
/// exactly when the cursor is above 30 % while the HUD is at the top; for a
/// screen of no height nothing moves.
pub proof fn law_hud_zones(at_top: bool, y: int, screen_h: int)
    ensures
        reposition(at_top, y, screen_h).1 == Some(HudEdge::Top) <==> (!at_top && screen_h > 0 && 10 * y
            > 7 * screen_h),
        reposition(at_top, y, screen_h).1 == Some(HudEdge::Bottom) <==> (at_top && screen_h > 0 && 10
            * y < 3 * screen_h),
        reposition(at_top, y, screen_h).1 is Some ==> reposition(at_top, y, screen_h).0 != at_top,
        reposition(at_top, y, screen_h).1 is None ==> reposition(at_top, y, screen_h).0 == at_top,
{
}

/// A preview result neither touches the clipboard nor the history and keeps
/// the lens loading; a final result stops loading and puts every original
/// text on the clipboard, one per line; an error stops loading.
pub proof fn law_result_effects_by_kind<H>(
    v: LensView<H>,
    rs: Vec<TranslationResult>,
    meta: OcrMeta,
    e: String,
    fx: ResultEffects,
    overlay_enabled: bool,
    mode: OverlayRenderMode,
)
    ensures
        result_effects_ok(fx, Ok((rs, meta)), overlay_enabled, mode) && meta.preview ==> fx.clipboard_text
            is None && fx.history is None && !fx.reset_last_capture && after_result(
            v,
            Ok((rs, meta)),
        ).is_loading == v.is_loading,
        result_effects_ok(fx, Ok((rs, meta)), overlay_enabled, mode) && !meta.preview ==> (
        fx.clipboard_text matches Some(t) && t@ == join_seqs(
            rs@.map_values(|r: TranslationResult| r.original@),
            "\n"@,
        )) && fx.reset_last_capture && !after_result(v, Ok((rs, meta))).is_loading,
        result_effects_ok(fx, Ok((rs, meta)), overlay_enabled, mode) ==> (fx.overlay_text is Some
            <==> overlay_enabled),
        result_effects_ok(fx, Err(e), overlay_enabled, mode) ==> fx.clipboard_text is None
            && fx.overlay_text is None && fx.history is None && fx.reset_last_capture && !after_result(
            v,
            Err(e),
        ).is_loading,
{
}

/// Every Ctrl+Shift+Click is also a Shift+Click.
pub proof fn law_force_remote_is_shift_click(events: Seq<(u8, u16)>)
    ensures
        is_force_remote_click(events) ==> is_shift_click(events),
{
}

} // verus!
