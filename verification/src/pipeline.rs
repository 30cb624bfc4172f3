//! The OCR pipeline that runs behind a capture, as a state machine from
//! state and event to next state and action (`pipeline_step`): the
//! full-screen scan with its over-merge retry, the local (manga-ocr) first
//! pass with its previews and enrichment, the per-region remote calls and
//! the remote fallbacks. Also the helpers its work uses, and the HUD colour
//! that warns about paid token spend.

use vstd::prelude::*;
use vstd::string::*;
use crate::overlay::TranslationResult;
use crate::text::{decimal, opt_string_view, push_decimal};

verus! {

/// The backend label of a local-OCR result, by whether furigana annotation
/// and LLM enrichment succeeded.
pub open spec fn local_backend(furigana_ok: bool, enriched: bool) -> Seq<char> {
    if furigana_ok && enriched {
        "local:manga-ocr+furigana+enriched"@
    } else if furigana_ok {
        "local:manga-ocr+furigana"@
    } else if enriched {
        "local:manga-ocr+enriched"@
    } else {
        "local:manga-ocr"@
    }
}

/// The backend label of a local-OCR result.
pub fn local_backend_label(furigana_ok: bool, enriched: bool) -> (label: &'static str)
    ensures
        label@ == local_backend(furigana_ok, enriched),
{
    match (furigana_ok, enriched) {
        (true, true) => "local:manga-ocr+furigana+enriched",
        (true, false) => "local:manga-ocr+furigana",
        (false, true) => "local:manga-ocr+enriched",
        (false, false) => "local:manga-ocr",
    }
}

/// What the local pipeline does after OCR and furigana annotation.
#[derive(Clone, Copy, Debug, PartialEq, Eq, Structural)]
pub struct LocalPlan {
    /// Send the furigana-annotated results as a preview first.
    pub furigana_preview: bool,
    /// Ask the LLM to enrich (translate) the results.
    pub enrich: bool,
}

/// LLM enrichment runs when it is enabled and furigana-only mode is off; a
/// furigana preview precedes it when annotation succeeded.
pub fn local_phase_plan(furigana_ok: bool, enrichment_enabled: bool, furigana_only: bool) -> (p: LocalPlan)
    ensures
        p.enrich == (enrichment_enabled && !furigana_only),
        p.furigana_preview == (furigana_ok && p.enrich),
{
    let enrich = enrichment_enabled && !furigana_only;
    LocalPlan { furigana_preview: furigana_ok && enrich, enrich }
}

/// The local results the pipeline settles for: the confident ones when
/// local OCR passed its confidence gate; otherwise, in furigana-only mode
/// (which never calls the LLM), whatever partial results there are; else
/// none, and the LLM chain takes over.
pub fn accept_local<T>(local: Option<Vec<T>>, partials: Vec<T>, furigana_only: bool) -> (accepted: Option<Vec<T>>)
    ensures
        local is Some ==> accepted == local,
        local is None ==> (if furigana_only && partials@.len() > 0 {
            accepted matches Some(p) && p@ == partials@
        } else {
            accepted is None
        }),
{
    match local {
        Some(l) => Some(l),
        None => {
            if furigana_only && partials.len() > 0 {
                Some(partials)
            } else {
                None
            }
        },
    }
}

/// A detected box spanning more than 60 % of the captured width or height
/// merged several text regions; detection is retried inside it.
pub open spec fn over_merged(box_w: u32, box_h: u32, cap_w: u32, cap_h: u32) -> bool {
    box_w > (cap_w * 6) / 10 || box_h > (cap_h * 6) / 10
}

/// Whether a chosen detection box is an over-merge.
pub fn is_over_merged(box_w: u32, box_h: u32, cap_w: u32, cap_h: u32) -> (r: bool)
    ensures
        r == over_merged(box_w, box_h, cap_w, cap_h),
{
    box_w as u64 > cap_w as u64 * 6 / 10 || box_h as u64 > cap_h as u64 * 6 / 10
}

/// `x,y`, the form in which box corners are reported.
pub open spec fn xy_text(x: u32, y: u32) -> Seq<char> {
    decimal(x as nat) + ","@ + decimal(y as nat)
}

/// Formats a box corner as `x,y`.
pub fn xy_label(x: u32, y: u32) -> (s: String)
    ensures
        s@ == xy_text(x, y),
{
    let mut s = String::new();
    push_decimal(&mut s, x as u64);
    s.append(",");
    push_decimal(&mut s, y as u64);
    assert(s@ =~= xy_text(x, y));
    s
}

/// The colour the lens frame and status are drawn in.
#[derive(Clone, Copy, Debug, PartialEq, Eq, Structural)]
pub enum HudColor {
    /// Paid token spend reached the critical threshold (red).
    Critical,
    /// Paid token spend reached the warning threshold (orange).
    Warning,
    /// The configured HUD colour.
    Configured,
}

/// The frame colour for the session's paid token spend; a threshold of 0
/// is off.
pub open spec fn hud_color_of(spent: int, warning: int, critical: int) -> HudColor {
    if critical > 0 && spent >= critical {
        HudColor::Critical
    } else if warning > 0 && spent >= warning {
        HudColor::Warning
    } else {
        HudColor::Configured
    }
}

/// The frame colour for the session's paid prompt and completion tokens.
pub fn hud_color(prompt_tokens: u64, completion_tokens: u64, warning: u64, critical: u64) -> (c: HudColor)
    requires
        prompt_tokens + completion_tokens <= u64::MAX,
    ensures
        c == hud_color_of(prompt_tokens + completion_tokens, warning as int, critical as int),
{
    let total = prompt_tokens + completion_tokens;
    if critical > 0 && total >= critical {
        HudColor::Critical
    } else if warning > 0 && total >= warning {
        HudColor::Warning
    } else {
        HudColor::Configured
    }
}

/// Spend can only escalate the colour: once critical, more spend stays
/// critical; once warned, more spend is never back to the configured colour.
pub proof fn law_spend_escalates(spent: int, more: int, warning: int, critical: int)
    requires
        more >= spent,
    ensures
        hud_color_of(spent, warning, critical) == HudColor::Critical ==> hud_color_of(more, warning, critical)
            == HudColor::Critical,
        hud_color_of(spent, warning, critical) != HudColor::Configured ==> hud_color_of(
            more,
            warning,
            critical,
        ) != HudColor::Configured,
{
}

/// What the OCR pipeline of one capture was started with.
#[derive(Clone, Copy, Debug, PartialEq, Eq, Structural)]
pub struct PipelineConfig {
    /// Ctrl+Shift+Click: the remote backend is forced.
    pub force_remote: bool,
    /// A text detector is loaded.
    pub has_detector: bool,
    /// Local OCR (manga-ocr) is loaded.
    pub has_local_ocr: bool,
    /// Furigana-only mode: no LLM enrichment.
    pub furigana_only: bool,
    /// LLM enrichment of local results is enabled.
    pub enrichment_enabled: bool,
    /// MeCab's readings overwrite the furigana of delivered results (after
    /// comparing them, which always happens).
    pub mecab_overwrite: bool,
    /// Width of the captured image.
    pub cap_w: u32,
    /// Height of the captured image.
    pub cap_h: u32,
}

/// Where the OCR pipeline of one capture stands.
#[derive(Clone, Copy, Debug, PartialEq, Eq, Structural)]
pub enum PipelineState {
    /// Nothing done yet.
    Start,
    /// Full-screen scan: waiting for the detected boxes.
    FullDetecting,
    /// Full-screen scan: waiting for the box nearest the cursor, among
    /// `n_boxes`; `retried` once detection was re-run inside an over-merge.
    FullChoosing { n_boxes: u64, retried: bool },
    /// Full-screen scan: waiting for detection inside an over-merged box;
    /// `confident` is whether that box passed the local-OCR gate.
    FullRetrying { n_boxes: u64, confident: bool },
    /// Full-screen scan: waiting for local OCR of the chosen box.
    FullLocal,
    /// Full-screen scan: waiting for the crop of the chosen box.
    FullCropping,
    /// Lens capture: waiting for the detected (refined) boxes.
    LensDetecting,
    /// Lens capture: waiting for local OCR of all boxes.
    LensLocal,
    /// Lens capture: waiting for the per-region remote calls.
    LensRegions,
    /// Local results: waiting for the raw preview to go out.
    RawPreview,
    /// Local results: waiting for furigana annotation.
    Annotating,
    /// Local results: waiting for the furigana preview to go out.
    FuriganaPreview { furigana_ok: bool },
    /// Local results: waiting for LLM enrichment.
    Enriching { furigana_ok: bool },
    /// Waiting for the remote OCR call.
    Calling,
    /// Local results: waiting for the MeCab furigana check before delivery.
    CheckingLocal { furigana_ok: bool, enriched: bool },
    /// Per-region results: waiting for the MeCab furigana check.
    CheckingRegions,
    /// The remote call's results: waiting for the MeCab furigana check.
    CheckingApi,
    /// The pipeline has delivered its outcome.
    Finished,
}

/// What the pipeline learns from the work it asked for.
#[derive(Clone, Copy, Debug, PartialEq, Eq, Structural)]
pub enum PipelineEvent {
    /// The pipeline is started.
    Begin,
    /// Text detection found `count` boxes.
    Boxes { count: u64 },
    /// The box nearest the cursor is `w` x `h`; `confident` when its
    /// detection confidence passes the local-OCR gate.
    Chosen { w: u32, h: u32, confident: bool },
    /// Detection inside the over-merged box gave `count` boxes; `None` when
    /// no detector could be built for it.
    Retried { count: Option<u64> },
    /// Local OCR finished: `accepted` when it passed its confidence gate,
    /// `partials` the number of results it produced anyway.
    LocalDone { accepted: bool, partials: u64 },
    /// Cropping the chosen box succeeded or not.
    Cropped { ok: bool },
    /// The per-region calls gave at least one result or none.
    RegionsDone { any_results: bool },
    /// Furigana annotation succeeded or not.
    Annotated { ok: bool },
    /// LLM enrichment succeeded or not.
    Enriched { ok: bool },
    /// The remote OCR call finished, with results (`ok`) or an error.
    ApiDone { ok: bool },
    /// An action without a result of its own completed.
    Done,
}

/// Which image a remote OCR call is sent.
#[derive(Clone, Copy, Debug, PartialEq, Eq, Structural)]
pub enum ApiImage {
    /// The whole captured image.
    FullImage,
    /// The crop of the box nearest the cursor.
    ChosenCrop,
    /// The crop of the union of the detected boxes (the whole image when it
    /// cannot be made).
    UnionCrop,
}

/// The work the pipeline asks for next.
#[derive(Clone, Copy, Debug, PartialEq, Eq, Structural)]
pub enum PipelineAction {
    /// Detect text on the whole (full-screen) image.
    DetectFull,
    /// Pick the detected box nearest the cursor.
    ChooseNearest,
    /// Re-run detection inside the chosen, over-merged box and map the boxes
    /// back; replace the boxes when that gives more of them.
    RetryDetection,
    /// Run local OCR on the chosen box.
    LocalOcrChosen,
    /// Crop the chosen box.
    CropChosen,
    /// Detect and refine text boxes in the lens image.
    DetectLens,
    /// Run local OCR on every box, previewing results as they come.
    LocalOcrLens,
    /// Send each box's crop to remote OCR, stamping results with the box.
    CallRegions,
    /// Send an image to remote OCR, the forced fallback chain or the normal one.
    CallApi { image: ApiImage, force_fallback: bool },
    /// Send the local results as a preview.
    SendRawPreview,
    /// Annotate the local results with furigana.
    Annotate,
    /// Send the furigana-annotated results as a preview.
    SendFuriganaPreview,
    /// Enrich the local results with the LLM.
    Enrich,
    /// Compare the results' furigana with MeCab's readings, and overwrite
    /// them with MeCab's when `overwrite` is set.
    CheckFurigana { overwrite: bool },
    /// Deliver the local results, labelled by `local_backend`.
    FinishLocal { furigana_ok: bool, enriched: bool },
    /// Deliver the collected per-region results.
    FinishRegions,
    /// Deliver the remote call's outcome.
    FinishApi,
    /// Deliver the error "No text detected near cursor".
    FailNoTextNearCursor,
    /// The event does not belong to this state: nothing to do.
    Ignore,
}

/// How the pipeline starts: a full-screen scan for a forced-remote capture
/// with a detector, per-region detection for a lens capture with one, and
/// otherwise straight to remote OCR of the whole image.
pub open spec fn pipeline_start(c: PipelineConfig) -> (PipelineState, PipelineAction) {
    if c.has_detector && c.force_remote {
        (PipelineState::FullDetecting, PipelineAction::DetectFull)
    } else if c.has_detector {
        (PipelineState::LensDetecting, PipelineAction::DetectLens)
    } else {
        (
            PipelineState::Calling,
            PipelineAction::CallApi { image: ApiImage::FullImage, force_fallback: c.force_remote },
        )
    }
}

/// The local-OCR gate of the full-screen scan: local OCR of the chosen box
/// when it is loaded and the box is confident, otherwise its crop goes to
/// remote OCR.
pub open spec fn full_local_gate(c: PipelineConfig, confident: bool) -> (PipelineState, PipelineAction) {
    if c.has_local_ocr && confident {
        (PipelineState::FullLocal, PipelineAction::LocalOcrChosen)
    } else {
        (PipelineState::FullCropping, PipelineAction::CropChosen)
    }
}

/// After furigana annotation: a furigana preview and enrichment, or
/// enrichment alone, or delivery, as `local_phase_plan` decides.
pub open spec fn after_annotation(c: PipelineConfig, ok: bool) -> (PipelineState, PipelineAction) {
    let enrich = c.enrichment_enabled && !c.furigana_only;
    if ok && enrich {
        (PipelineState::FuriganaPreview { furigana_ok: ok }, PipelineAction::SendFuriganaPreview)
    } else if enrich {
        (PipelineState::Enriching { furigana_ok: ok }, PipelineAction::Enrich)
    } else {
        (
            PipelineState::CheckingLocal { furigana_ok: ok, enriched: false },
            PipelineAction::CheckFurigana { overwrite: c.mecab_overwrite },
        )
    }
}

/// The pipeline's transition table: the next state and the work to do.
pub open spec fn pipeline_transition(c: PipelineConfig, st: PipelineState, ev: PipelineEvent) -> (
    PipelineState,
    PipelineAction,
) {
    match (st, ev) {
        (PipelineState::Start, PipelineEvent::Begin) => pipeline_start(c),
        (PipelineState::FullDetecting, PipelineEvent::Boxes { count }) => if count == 0 {
            (PipelineState::Finished, PipelineAction::FailNoTextNearCursor)
        } else {
            (PipelineState::FullChoosing { n_boxes: count, retried: false }, PipelineAction::ChooseNearest)
        },
        (PipelineState::FullChoosing { n_boxes, retried }, PipelineEvent::Chosen { w, h, confident }) => if !retried
            && over_merged(w, h, c.cap_w, c.cap_h) {
            (PipelineState::FullRetrying { n_boxes, confident }, PipelineAction::RetryDetection)
        } else {
            full_local_gate(c, confident)
        },
        (PipelineState::FullRetrying { n_boxes, confident }, PipelineEvent::Retried { count }) => match count {
            Some(k) => if k > n_boxes {
                (PipelineState::FullChoosing { n_boxes: k, retried: true }, PipelineAction::ChooseNearest)
            } else {
                full_local_gate(c, confident)
            },
            None => full_local_gate(c, confident),
        },
        (PipelineState::FullLocal, PipelineEvent::LocalDone { accepted, partials }) => if accepted {
            (PipelineState::RawPreview, PipelineAction::SendRawPreview)
        } else {
            (PipelineState::FullCropping, PipelineAction::CropChosen)
        },
        (PipelineState::FullCropping, PipelineEvent::Cropped { ok }) => if ok {
            (
                PipelineState::Calling,
                PipelineAction::CallApi { image: ApiImage::ChosenCrop, force_fallback: true },
            )
        } else {
            (PipelineState::Finished, PipelineAction::FailNoTextNearCursor)
        },
        (PipelineState::LensDetecting, PipelineEvent::Boxes { count }) => if count == 0 {
            (
                PipelineState::Calling,
                PipelineAction::CallApi { image: ApiImage::FullImage, force_fallback: false },
            )
        } else if c.has_local_ocr {
            (PipelineState::LensLocal, PipelineAction::LocalOcrLens)
        } else {
            (PipelineState::LensRegions, PipelineAction::CallRegions)
        },
        (PipelineState::LensLocal, PipelineEvent::LocalDone { accepted, partials }) => if accepted || (
        c.furigana_only && partials > 0) {
            (PipelineState::Annotating, PipelineAction::Annotate)
        } else {
            (PipelineState::LensRegions, PipelineAction::CallRegions)
        },
        (PipelineState::LensRegions, PipelineEvent::RegionsDone { any_results }) => if any_results {
            (PipelineState::CheckingRegions, PipelineAction::CheckFurigana { overwrite: c.mecab_overwrite })
        } else {
            (
                PipelineState::Calling,
                PipelineAction::CallApi { image: ApiImage::UnionCrop, force_fallback: false },
            )
        },
        (PipelineState::RawPreview, PipelineEvent::Done) => (PipelineState::Annotating, PipelineAction::Annotate),
        (PipelineState::Annotating, PipelineEvent::Annotated { ok }) => after_annotation(c, ok),
        (PipelineState::FuriganaPreview { furigana_ok }, PipelineEvent::Done) => (
            PipelineState::Enriching { furigana_ok },
            PipelineAction::Enrich,
        ),
        (PipelineState::Enriching { furigana_ok }, PipelineEvent::Enriched { ok }) => (
            PipelineState::CheckingLocal { furigana_ok, enriched: ok },
            PipelineAction::CheckFurigana { overwrite: c.mecab_overwrite },
        ),
        (PipelineState::Calling, PipelineEvent::ApiDone { ok }) => if ok {
            (PipelineState::CheckingApi, PipelineAction::CheckFurigana { overwrite: c.mecab_overwrite })
        } else {
            (PipelineState::Finished, PipelineAction::FinishApi)
        },
        (PipelineState::CheckingLocal { furigana_ok, enriched }, PipelineEvent::Done) => (
            PipelineState::Finished,
            PipelineAction::FinishLocal { furigana_ok, enriched },
        ),
        (PipelineState::CheckingRegions, PipelineEvent::Done) => (
            PipelineState::Finished,
            PipelineAction::FinishRegions,
        ),
        (PipelineState::CheckingApi, PipelineEvent::Done) => (PipelineState::Finished, PipelineAction::FinishApi),
        _ => (st, PipelineAction::Ignore),
    }
}

fn gate(c: &PipelineConfig, confident: bool) -> (r: (PipelineState, PipelineAction))
    ensures
        r == full_local_gate(*c, confident),
{
    if c.has_local_ocr && confident {
        (PipelineState::FullLocal, PipelineAction::LocalOcrChosen)
    } else {
        (PipelineState::FullCropping, PipelineAction::CropChosen)
    }
}

/// One step of a capture's OCR pipeline: given what the last piece of work
/// gave, the next state and the next piece of work.
pub fn pipeline_step(c: &PipelineConfig, st: PipelineState, ev: PipelineEvent) -> (r: (PipelineState, PipelineAction))
    ensures
        r == pipeline_transition(*c, st, ev),
        st == PipelineState::FullLocal && ev is LocalDone && !ev->accepted ==> r == (
            PipelineState::FullCropping,
            PipelineAction::CropChosen,
        ),
        r.1 == PipelineAction::FailNoTextNearCursor ==> (st == PipelineState::FullDetecting && ev
            == PipelineEvent::Boxes { count: 0 }) || (st == PipelineState::FullCropping && ev
            == PipelineEvent::Cropped { ok: false }),
{
    match (st, ev) {
        (PipelineState::Start, PipelineEvent::Begin) => {
            if c.has_detector && c.force_remote {
                (PipelineState::FullDetecting, PipelineAction::DetectFull)
            } else if c.has_detector {
                (PipelineState::LensDetecting, PipelineAction::DetectLens)
            } else {
                (
                    PipelineState::Calling,
                    PipelineAction::CallApi { image: ApiImage::FullImage, force_fallback: c.force_remote },
                )
            }
        },
        (PipelineState::FullDetecting, PipelineEvent::Boxes { count }) => {
            if count == 0 {
                (PipelineState::Finished, PipelineAction::FailNoTextNearCursor)
            } else {
                (PipelineState::FullChoosing { n_boxes: count, retried: false }, PipelineAction::ChooseNearest)
            }
        },
        (PipelineState::FullChoosing { n_boxes, retried }, PipelineEvent::Chosen { w, h, confident }) => {
            if !retried && is_over_merged(w, h, c.cap_w, c.cap_h) {
                (PipelineState::FullRetrying { n_boxes, confident }, PipelineAction::RetryDetection)
            } else {
                gate(c, confident)
            }
        },
        (PipelineState::FullRetrying { n_boxes, confident }, PipelineEvent::Retried { count }) => {
            match count {
                Some(k) => {
                    if k > n_boxes {
                        (PipelineState::FullChoosing { n_boxes: k, retried: true }, PipelineAction::ChooseNearest)
                    } else {
                        gate(c, confident)
                    }
                },
                None => gate(c, confident),
            }
        },
        (PipelineState::FullLocal, PipelineEvent::LocalDone { accepted, partials: _ }) => {
            if accepted {
                (PipelineState::RawPreview, PipelineAction::SendRawPreview)
            } else {
                (PipelineState::FullCropping, PipelineAction::CropChosen)
            }
        },
        (PipelineState::FullCropping, PipelineEvent::Cropped { ok }) => {
            if ok {
                (
                    PipelineState::Calling,
                    PipelineAction::CallApi { image: ApiImage::ChosenCrop, force_fallback: true },
                )
            } else {
                (PipelineState::Finished, PipelineAction::FailNoTextNearCursor)
            }
        },
        (PipelineState::LensDetecting, PipelineEvent::Boxes { count }) => {
            if count == 0 {
                (
                    PipelineState::Calling,
                    PipelineAction::CallApi { image: ApiImage::FullImage, force_fallback: false },
                )
            } else if c.has_local_ocr {
                (PipelineState::LensLocal, PipelineAction::LocalOcrLens)
            } else {
                (PipelineState::LensRegions, PipelineAction::CallRegions)
            }
        },
        (PipelineState::LensLocal, PipelineEvent::LocalDone { accepted, partials }) => {
            if accepted || (c.furigana_only && partials > 0) {
                (PipelineState::Annotating, PipelineAction::Annotate)
            } else {
                (PipelineState::LensRegions, PipelineAction::CallRegions)
            }
        },
        (PipelineState::LensRegions, PipelineEvent::RegionsDone { any_results }) => {
            if any_results {
                (PipelineState::CheckingRegions, PipelineAction::CheckFurigana { overwrite: c.mecab_overwrite })
            } else {
                (
                    PipelineState::Calling,
                    PipelineAction::CallApi { image: ApiImage::UnionCrop, force_fallback: false },
                )
            }
        },
        (PipelineState::RawPreview, PipelineEvent::Done) => (PipelineState::Annotating, PipelineAction::Annotate),
        (PipelineState::Annotating, PipelineEvent::Annotated { ok }) => {
            let plan = local_phase_plan(ok, c.enrichment_enabled, c.furigana_only);
            if plan.furigana_preview {
                (PipelineState::FuriganaPreview { furigana_ok: ok }, PipelineAction::SendFuriganaPreview)
            } else if plan.enrich {
                (PipelineState::Enriching { furigana_ok: ok }, PipelineAction::Enrich)
            } else {
                (
                    PipelineState::CheckingLocal { furigana_ok: ok, enriched: false },
                    PipelineAction::CheckFurigana { overwrite: c.mecab_overwrite },
                )
            }
        },
        (PipelineState::FuriganaPreview { furigana_ok }, PipelineEvent::Done) => (
            PipelineState::Enriching { furigana_ok },
            PipelineAction::Enrich,
        ),
        (PipelineState::Enriching { furigana_ok }, PipelineEvent::Enriched { ok }) => (
            PipelineState::CheckingLocal { furigana_ok, enriched: ok },
            PipelineAction::CheckFurigana { overwrite: c.mecab_overwrite },
        ),
        (PipelineState::Calling, PipelineEvent::ApiDone { ok }) => if ok {
            (PipelineState::CheckingApi, PipelineAction::CheckFurigana { overwrite: c.mecab_overwrite })
        } else {
            (PipelineState::Finished, PipelineAction::FinishApi)
        },
        (PipelineState::CheckingLocal { furigana_ok, enriched }, PipelineEvent::Done) => (
            PipelineState::Finished,
            PipelineAction::FinishLocal { furigana_ok, enriched },
        ),
        (PipelineState::CheckingRegions, PipelineEvent::Done) => (
            PipelineState::Finished,
            PipelineAction::FinishRegions,
        ),
        (PipelineState::CheckingApi, PipelineEvent::Done) => (PipelineState::Finished, PipelineAction::FinishApi),
        _ => (st, PipelineAction::Ignore),
    }
}

/// What holds of every state the pipeline reaches for configuration `c`:
/// the full-screen states only on a forced-remote capture with a detector,
/// the lens states only on a normal one with a detector, and the enrichment
/// states only when enrichment is on and furigana-only mode off.
pub open spec fn pipeline_inv(c: PipelineConfig, st: PipelineState) -> bool {
    match st {
        PipelineState::FullDetecting | PipelineState::FullChoosing { .. } | PipelineState::FullRetrying {
            ..
        } | PipelineState::FullLocal | PipelineState::FullCropping | PipelineState::RawPreview => c.force_remote
            && c.has_detector,
        PipelineState::LensDetecting | PipelineState::LensLocal | PipelineState::LensRegions => !c.force_remote
            && c.has_detector,
        PipelineState::FuriganaPreview { .. } | PipelineState::Enriching { .. } => c.enrichment_enabled
            && !c.furigana_only,
        _ => true,
    }
}

/// The local-result states: once local OCR results are accepted, they are
/// finished locally.
pub open spec fn is_local_phase(st: PipelineState) -> bool {
    st is RawPreview || st is Annotating || st is FuriganaPreview || st is Enriching || st is CheckingLocal
}

/// Every step keeps the pipeline invariant, which holds at the start.
pub proof fn law_pipeline_inv_preserved(c: PipelineConfig, st: PipelineState, ev: PipelineEvent)
    requires
        pipeline_inv(c, st),
    ensures
        pipeline_inv(c, PipelineState::Start),
        pipeline_inv(c, pipeline_transition(c, st, ev).0),
{
}

/// In every reachable state: LLM enrichment is asked for only when it is
/// enabled and furigana-only mode is off; per-region work only for a normal
/// (not forced-remote) capture; and "No text detected near cursor" only on a
/// forced-remote one. A forced-remote capture's remote calls always use the
/// forced fallback chain.
pub proof fn law_pipeline_actions_respect_config(c: PipelineConfig, st: PipelineState, ev: PipelineEvent)
    requires
        pipeline_inv(c, st),
    ensures
        pipeline_transition(c, st, ev).1 is Enrich ==> c.enrichment_enabled && !c.furigana_only,
        pipeline_transition(c, st, ev).1 is SendFuriganaPreview ==> c.enrichment_enabled && !c.furigana_only,
        pipeline_transition(c, st, ev).1 is DetectLens || pipeline_transition(c, st, ev).1 is LocalOcrLens
            || pipeline_transition(c, st, ev).1 is CallRegions ==> !c.force_remote,
        pipeline_transition(c, st, ev).1 is FailNoTextNearCursor ==> c.force_remote,
        pipeline_transition(c, st, ev).1 matches PipelineAction::CallApi { force_fallback, .. }
            ==> force_fallback == c.force_remote,
{
}

/// Accepted local results never go to remote OCR: from a local-result state
/// the pipeline only moves on to another one or finishes, and asks for no
/// remote call.
pub proof fn law_local_results_stay_local(c: PipelineConfig, st: PipelineState, ev: PipelineEvent)
    requires
        is_local_phase(st),
    ensures
        is_local_phase(pipeline_transition(c, st, ev).0) || pipeline_transition(c, st, ev).0 is Finished,
        !(pipeline_transition(c, st, ev).1 is CallApi),
        !(pipeline_transition(c, st, ev).1 is CallRegions),
{
}

/// Results are delivered only after the MeCab furigana check, which
/// overwrites exactly when the configuration says so; an error is delivered
/// without it.
pub proof fn law_results_checked_before_delivery(c: PipelineConfig, st: PipelineState, ev: PipelineEvent)
    ensures
        pipeline_transition(c, st, ev).1 matches PipelineAction::CheckFurigana { overwrite }
            ==> overwrite == c.mecab_overwrite,
        pipeline_transition(c, st, ev).1 is FinishLocal ==> st is CheckingLocal,
        pipeline_transition(c, st, ev).1 is FinishRegions ==> st is CheckingRegions,
        pipeline_transition(c, st, ev).1 is FinishApi ==> st is CheckingApi || (st is Calling
            && ev == PipelineEvent::ApiDone { ok: false }),
        pipeline_transition(c, st, ev).1 is CheckFurigana <==> (pipeline_transition(c, st, ev).0 != st
            && (pipeline_transition(c, st, ev).0 is CheckingLocal || pipeline_transition(c, st, ev).0 is CheckingRegions
            || pipeline_transition(c, st, ev).0 is CheckingApi)),
{
}

/// When local OCR of the chosen box misses its confidence gate, the
/// full-screen scan does not give up: it crops the chosen box for remote
/// OCR, whatever the configuration and however many partial results there
/// were.
pub proof fn law_unconfident_local_falls_back_to_crop(c: PipelineConfig, partials: u64)
    ensures
        pipeline_transition(
            c,
            PipelineState::FullLocal,
            PipelineEvent::LocalDone { accepted: false, partials },
        ) == (PipelineState::FullCropping, PipelineAction::CropChosen),
{
}

/// "No text detected near cursor" is the answer only when the full-screen
/// detection found no box at all, or the chosen box could not be cropped.
pub proof fn law_no_text_only_when_nothing_found(c: PipelineConfig, st: PipelineState, ev: PipelineEvent)
    ensures
        pipeline_transition(c, st, ev).1 == PipelineAction::FailNoTextNearCursor ==> (st
            == PipelineState::FullDetecting && ev == PipelineEvent::Boxes { count: 0 }) || (st
            == PipelineState::FullCropping && ev == PipelineEvent::Cropped { ok: false }),
{
}

/// How a capture's pipeline starts: a full-screen detection exactly for a
/// forced-remote capture with a detector, lens detection exactly for a
/// normal one with a detector, and otherwise remote OCR of the whole image
/// on the chain the capture asked for.
pub proof fn law_pipeline_start(c: PipelineConfig)
    ensures
        pipeline_transition(c, PipelineState::Start, PipelineEvent::Begin).1 == PipelineAction::DetectFull
            <==> c.force_remote && c.has_detector,
        pipeline_transition(c, PipelineState::Start, PipelineEvent::Begin).1 == PipelineAction::DetectLens
            <==> !c.force_remote && c.has_detector,
        !c.has_detector ==> pipeline_transition(c, PipelineState::Start, PipelineEvent::Begin).1
            == (PipelineAction::CallApi { image: ApiImage::FullImage, force_fallback: c.force_remote }),
{
}

/// The lens path accepts local results when they met their confidence threshold, or, in
/// furigana-only mode, when there are partial results; otherwise every
/// region goes to remote OCR.
pub proof fn law_lens_local_acceptance(c: PipelineConfig, accepted: bool, partials: u64)
    ensures
        pipeline_transition(c, PipelineState::LensLocal, PipelineEvent::LocalDone { accepted, partials }).1
            == (if accepted || (c.furigana_only && partials > 0) {
            PipelineAction::Annotate
        } else {
            PipelineAction::CallRegions
        }),
{
}

/// After the over-merge retry the new boxes are adopted (and the nearest one
/// chosen again) only when there are more of them than before.
pub proof fn law_retry_adopts_only_more_boxes(c: PipelineConfig, n: u64, confident: bool, count: Option<u64>)
    ensures
        pipeline_transition(
            c,
            PipelineState::FullRetrying { n_boxes: n, confident },
            PipelineEvent::Retried { count },
        ).1 == PipelineAction::ChooseNearest <==> (count matches Some(k) && k > n),
{
}

/// When per-region OCR gives nothing, the union crop of the detected boxes
/// goes to normal remote OCR; when it gives results they are checked and
/// delivered.
pub proof fn law_regions_outcome(c: PipelineConfig, any_results: bool)
    ensures
        pipeline_transition(c, PipelineState::LensRegions, PipelineEvent::RegionsDone { any_results }).1
            == (if any_results {
            PipelineAction::CheckFurigana { overwrite: c.mecab_overwrite }
        } else {
            PipelineAction::CallApi { image: ApiImage::UnionCrop, force_fallback: false }
        }),
{
}

/// After furigana annotation: the furigana preview goes out exactly when
/// annotation succeeded and enrichment will run; enrichment runs exactly
/// when enabled and furigana-only mode is off.
pub proof fn law_after_annotation(c: PipelineConfig, ok: bool)
    ensures
        pipeline_transition(c, PipelineState::Annotating, PipelineEvent::Annotated { ok }).1
            == PipelineAction::SendFuriganaPreview <==> ok && c.enrichment_enabled && !c.furigana_only,
        pipeline_transition(c, PipelineState::Annotating, PipelineEvent::Annotated { ok }).1
            == PipelineAction::Enrich <==> !ok && c.enrichment_enabled && !c.furigana_only,
        !(c.enrichment_enabled && !c.furigana_only) ==> pipeline_transition(
            c,
            PipelineState::Annotating,
            PipelineEvent::Annotated { ok },
        ).0 == (PipelineState::CheckingLocal { furigana_ok: ok, enriched: false }),
{
}

/// A finished pipeline stays finished and asks for nothing more.
pub proof fn law_finished_is_final(c: PipelineConfig, ev: PipelineEvent)
    ensures
        pipeline_transition(c, PipelineState::Finished, ev) == (PipelineState::Finished, PipelineAction::Ignore),
{
}

/// Over-merge detection is retried at most once per capture.
pub proof fn law_retry_at_most_once(c: PipelineConfig, n: u64, ev: PipelineEvent)
    ensures
        !(pipeline_transition(c, PipelineState::FullChoosing { n_boxes: n, retried: true }, ev).1 is RetryDetection),
{
}

/// `r` with its box corners set to `top` and `bot` and nothing else changed.
pub open spec fn stamped(r: TranslationResult, s: TranslationResult, top: Seq<char>, bot: Seq<char>) -> bool {
    &&& s.original == r.original
    &&& s.english == r.english
    &&& s.furigana == r.furigana
    &&& s.romaji == r.romaji
    &&& s.debug_info == r.debug_info
    &&& opt_string_view(s.top_xy) == Some(top)
    &&& opt_string_view(s.bot_xy) == Some(bot)
}

/// Stamps the results of one region's remote OCR with the region's box
/// corners (in capture coordinates), which the remote backend does not know.
pub fn stamp_region_results(results: Vec<TranslationResult>, x1: u32, y1: u32, x2: u32, y2: u32) -> (out: Vec<
    TranslationResult,
>)
    ensures
        out@.len() == results@.len(),
        forall|i: int|
            0 <= i < out@.len() ==> stamped(results@[i], #[trigger] out@[i], xy_text(x1, y1), xy_text(x2, y2)),
{
    let ghost orig = results@;
    let mut rest = results;
    let mut out: Vec<TranslationResult> = Vec::new();
    while rest.len() > 0
        invariant
            out@.len() + rest@.len() == orig.len(),
            rest@ == orig.subrange(out@.len() as int, orig.len() as int),
            forall|i: int|
                0 <= i < out@.len() ==> stamped(orig[i], #[trigger] out@[i], xy_text(x1, y1), xy_text(x2, y2)),
        decreases rest@.len(),
    {
        let ghost k = out@.len();
        let mut r = rest.remove(0);
        assert(r == orig[k as int]);
        r.top_xy = Some(xy_label(x1, y1));
        r.bot_xy = Some(xy_label(x2, y2));
        out.push(r);
        assert(rest@ =~= orig.subrange(out@.len() as int, orig.len() as int));
    }
    out
}

/// The result of local OCR for one box: its text, the box corners and the
/// given debug line; no enrichment yet.
pub fn local_translation_result(text: String, x1: u32, y1: u32, x2: u32, y2: u32, debug_info: String) -> (r:
    TranslationResult)
    ensures
        r.original == text,
        r.english is None,
        r.furigana is None,
        r.romaji is None,
        opt_string_view(r.top_xy) == Some(xy_text(x1, y1)),
        opt_string_view(r.bot_xy) == Some(xy_text(x2, y2)),
        r.debug_info == Some(debug_info),
{
    TranslationResult {
        original: text,
        english: None,
        furigana: None,
        romaji: None,
        top_xy: Some(xy_label(x1, y1)),
        bot_xy: Some(xy_label(x2, y2)),
        debug_info: Some(debug_info),
    }
}

} // verus!
