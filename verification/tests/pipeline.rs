use lenzu::overlay::TranslationResult;
use lenzu::pipeline::{
    accept_local, hud_color, is_over_merged, local_backend_label, local_phase_plan,
    local_translation_result, pipeline_step, stamp_region_results, xy_label, ApiImage, HudColor,
    LocalPlan, PipelineAction, PipelineConfig, PipelineEvent, PipelineState,
};

#[test]
fn backend_labels() {
    assert_eq!(local_backend_label(true, true), "local:manga-ocr+furigana+enriched");
    assert_eq!(local_backend_label(true, false), "local:manga-ocr+furigana");
    assert_eq!(local_backend_label(false, true), "local:manga-ocr+enriched");
    assert_eq!(local_backend_label(false, false), "local:manga-ocr");
}

#[test]
fn phase_plan() {
    assert_eq!(local_phase_plan(true, true, false), LocalPlan { furigana_preview: true, enrich: true });
    assert_eq!(local_phase_plan(true, true, true), LocalPlan { furigana_preview: false, enrich: false });
    assert_eq!(local_phase_plan(false, true, false), LocalPlan { furigana_preview: false, enrich: true });
}

#[test]
fn local_acceptance() {
    assert_eq!(accept_local(Some(vec![1]), vec![2], true), Some(vec![1]));
    assert_eq!(accept_local(None, vec![2], true), Some(vec![2]));
    assert_eq!(accept_local::<u8>(None, vec![], true), None);
    assert_eq!(accept_local(None, vec![2], false), None);
}

#[test]
fn over_merge_threshold() {
    assert!(!is_over_merged(1152, 100, 1920, 1080));
    assert!(is_over_merged(1153, 100, 1920, 1080));
    assert!(is_over_merged(10, 649, 1920, 1080));
}

#[test]
fn corner_labels() {
    assert_eq!(xy_label(12, 0), "12,0");
    assert_eq!(xy_label(u32::MAX, 7), "4294967295,7");
}

#[test]
fn token_colour() {
    assert_eq!(hud_color(10, 5, 0, 0), HudColor::Configured);
    assert_eq!(hud_color(10, 5, 15, 0), HudColor::Warning);
    assert_eq!(hud_color(10, 5, 15, 15), HudColor::Critical);
    assert_eq!(hud_color(10, 4, 15, 20), HudColor::Configured);
}

fn config(force_remote: bool, has_detector: bool, has_local_ocr: bool, furigana_only: bool) -> PipelineConfig {
    PipelineConfig {
        force_remote,
        has_detector,
        has_local_ocr,
        furigana_only,
        enrichment_enabled: true,
        mecab_overwrite: true,
        cap_w: 1920,
        cap_h: 1080,
    }
}

fn run(c: &PipelineConfig, events: &[PipelineEvent]) -> Vec<PipelineAction> {
    let mut st = PipelineState::Start;
    let mut acts = vec![];
    for ev in events {
        let (next, act) = pipeline_step(c, st, *ev);
        st = next;
        acts.push(act);
    }
    acts
}

#[test]
fn no_detector_goes_straight_to_remote() {
    let acts = run(
        &config(false, false, false, false),
        &[PipelineEvent::Begin, PipelineEvent::ApiDone { ok: true }, PipelineEvent::Done],
    );
    assert_eq!(
        acts,
        vec![
            PipelineAction::CallApi { image: ApiImage::FullImage, force_fallback: false },
            PipelineAction::CheckFurigana { overwrite: true },
            PipelineAction::FinishApi
        ]
    );
    let acts = run(&config(false, false, false, false), &[PipelineEvent::Begin, PipelineEvent::ApiDone { ok: false }]);
    assert_eq!(
        acts,
        vec![
            PipelineAction::CallApi { image: ApiImage::FullImage, force_fallback: false },
            PipelineAction::FinishApi
        ]
    );
}

#[test]
fn fullscreen_with_no_boxes_fails_near_cursor() {
    let acts = run(&config(true, true, true, false), &[PipelineEvent::Begin, PipelineEvent::Boxes { count: 0 }]);
    assert_eq!(acts, vec![PipelineAction::DetectFull, PipelineAction::FailNoTextNearCursor]);
}

#[test]
fn fullscreen_over_merge_retry_then_local_path() {
    let acts = run(
        &config(true, true, true, false),
        &[
            PipelineEvent::Begin,
            PipelineEvent::Boxes { count: 3 },
            PipelineEvent::Chosen { w: 1500, h: 100, confident: false },
            PipelineEvent::Retried { count: Some(5) },
            PipelineEvent::Chosen { w: 1500, h: 100, confident: true },
            PipelineEvent::LocalDone { accepted: true, partials: 0 },
            PipelineEvent::Done,
            PipelineEvent::Annotated { ok: true },
            PipelineEvent::Done,
            PipelineEvent::Enriched { ok: false },
            PipelineEvent::Done,
        ],
    );
    assert_eq!(
        acts,
        vec![
            PipelineAction::DetectFull,
            PipelineAction::ChooseNearest,
            PipelineAction::RetryDetection,
            PipelineAction::ChooseNearest,
            PipelineAction::LocalOcrChosen,
            PipelineAction::SendRawPreview,
            PipelineAction::Annotate,
            PipelineAction::SendFuriganaPreview,
            PipelineAction::Enrich,
            PipelineAction::CheckFurigana { overwrite: true },
            PipelineAction::FinishLocal { furigana_ok: true, enriched: false },
        ]
    );
}

#[test]
fn fullscreen_unconfident_box_goes_remote_on_its_crop() {
    let acts = run(
        &config(true, true, true, false),
        &[
            PipelineEvent::Begin,
            PipelineEvent::Boxes { count: 2 },
            PipelineEvent::Chosen { w: 100, h: 100, confident: false },
            PipelineEvent::Cropped { ok: true },
            PipelineEvent::ApiDone { ok: true },
            PipelineEvent::Done,
        ],
    );
    assert_eq!(
        acts,
        vec![
            PipelineAction::DetectFull,
            PipelineAction::ChooseNearest,
            PipelineAction::CropChosen,
            PipelineAction::CallApi { image: ApiImage::ChosenCrop, force_fallback: true },
            PipelineAction::CheckFurigana { overwrite: true },
            PipelineAction::FinishApi,
        ]
    );
}

#[test]
fn lens_furigana_only_accepts_partials_without_llm() {
    let acts = run(
        &config(false, true, true, true),
        &[
            PipelineEvent::Begin,
            PipelineEvent::Boxes { count: 2 },
            PipelineEvent::LocalDone { accepted: false, partials: 2 },
            PipelineEvent::Annotated { ok: true },
            PipelineEvent::Done,
        ],
    );
    assert_eq!(
        acts,
        vec![
            PipelineAction::DetectLens,
            PipelineAction::LocalOcrLens,
            PipelineAction::Annotate,
            PipelineAction::CheckFurigana { overwrite: true },
            PipelineAction::FinishLocal { furigana_ok: true, enriched: false },
        ]
    );
}

#[test]
fn lens_regions_fail_then_union_crop() {
    let acts = run(
        &config(false, true, true, false),
        &[
            PipelineEvent::Begin,
            PipelineEvent::Boxes { count: 2 },
            PipelineEvent::LocalDone { accepted: false, partials: 2 },
            PipelineEvent::RegionsDone { any_results: false },
            PipelineEvent::ApiDone { ok: false },
        ],
    );
    assert_eq!(
        acts,
        vec![
            PipelineAction::DetectLens,
            PipelineAction::LocalOcrLens,
            PipelineAction::CallRegions,
            PipelineAction::CallApi { image: ApiImage::UnionCrop, force_fallback: false },
            PipelineAction::FinishApi,
        ]
    );
}

#[test]
fn unexpected_event_is_ignored() {
    let c = config(false, true, true, false);
    assert_eq!(
        pipeline_step(&c, PipelineState::Finished, PipelineEvent::Done),
        (PipelineState::Finished, PipelineAction::Ignore)
    );
    assert_eq!(
        pipeline_step(&c, PipelineState::LensDetecting, PipelineEvent::Done),
        (PipelineState::LensDetecting, PipelineAction::Ignore)
    );
}

#[test]
fn region_results_are_stamped_with_their_box() {
    let rs = vec![
        TranslationResult { original: "a".to_string(), english: Some("x".to_string()), ..Default::default() },
        TranslationResult { original: "b".to_string(), top_xy: Some("9,9".to_string()), ..Default::default() },
    ];
    let out = stamp_region_results(rs, 1, 2, 30, 40);
    assert_eq!(out.len(), 2);
    assert_eq!(out[0].original, "a");
    assert_eq!(out[0].english.as_deref(), Some("x"));
    assert_eq!(out[1].top_xy.as_deref(), Some("1,2"));
    assert_eq!(out[1].bot_xy.as_deref(), Some("30,40"));
}

#[test]
fn local_result_entry() {
    let r = local_translation_result("猫".to_string(), 5, 6, 7, 8, "dbg".to_string());
    assert_eq!(r.original, "猫");
    assert_eq!(r.top_xy.as_deref(), Some("5,6"));
    assert_eq!(r.bot_xy.as_deref(), Some("7,8"));
    assert_eq!(r.debug_info.as_deref(), Some("dbg"));
    assert!(r.english.is_none());
}

#[test]
fn region_results_checked_without_overwrite_when_disabled() {
    let mut c = config(false, true, false, false);
    c.mecab_overwrite = false;
    let acts = run(
        &c,
        &[PipelineEvent::Begin, PipelineEvent::Boxes { count: 1 }, PipelineEvent::RegionsDone { any_results: true }, PipelineEvent::Done],
    );
    assert_eq!(
        acts,
        vec![
            PipelineAction::DetectLens,
            PipelineAction::CallRegions,
            PipelineAction::CheckFurigana { overwrite: false },
            PipelineAction::FinishRegions,
        ]
    );
}
