use lenzu::launch::{about_body, help_text, hud_env, hud_launch, model_candidates, xdg_data_dir, HudLaunch};

#[test]
fn help_text_has_version_and_shortcuts() {
    let t = help_text("0.1.7");
    assert!(t.starts_with("Lenzu v0.1.7\n━━━━"));
    assert!(t.contains("Shift＋クリック\n  → レンズ内のテキストをOCR・翻訳"));
    assert!(t.ends_with("Shift＋ESC\n  → 終了"));
}

#[test]
fn about_body_combinations() {
    assert_eq!(about_body(Some("A".to_string()), Some("B".to_string())), "A\n\n---\n\nB");
    assert_eq!(about_body(Some("A".to_string()), None), "A");
    assert_eq!(about_body(None, Some("B".to_string())), "B");
    assert_eq!(
        about_body(None, None),
        "Third-party notices not found.  See:\n/usr/share/doc/lenzu/NOTICES.md\nhttps://github.com/CodeMonkeyNinja/lenzu"
    );
}

#[test]
fn launch_preference_order() {
    assert!(matches!(
        hud_launch(true, Some("/repo/lenzu_server".to_string()), Some("/app".to_string())),
        HudLaunch::OnPath
    ));
    assert!(matches!(
        hud_launch(false, Some("/repo/lenzu_server".to_string()), Some("/app".to_string())),
        HudLaunch::DevTree { ref dir } if dir == "/repo/lenzu_server"
    ));
    assert!(matches!(
        hud_launch(false, None, Some("/app".to_string())),
        HudLaunch::AppImage { ref appdir } if appdir == "/app"
    ));
    assert!(matches!(hud_launch(false, None, None), HudLaunch::OnPath));
}

#[test]
fn hud_environment() {
    let env = hud_env(7331);
    assert_eq!(env[0], ("LENZU_OVERLAY_UDP_PORT".to_string(), "7331".to_string()));
    assert_eq!(env[1], ("GTK_CSD".to_string(), "0".to_string()));
}

#[test]
fn model_search_paths() {
    assert_eq!(xdg_data_dir(Some("/x".to_string()), Some("/h".to_string())).as_deref(), Some("/x"));
    assert_eq!(xdg_data_dir(Some("".to_string()), Some("/h".to_string())).as_deref(), Some("/h/.local/share"));
    assert_eq!(xdg_data_dir(None, None), None);
    assert_eq!(
        model_candidates(Some("/h/.local/share".to_string()), "dbnet.onnx"),
        vec![
            "/h/.local/share/lenzu/models/dbnet.onnx".to_string(),
            "/usr/share/lenzu/models/dbnet.onnx".to_string(),
            "/usr/local/share/lenzu/models/dbnet.onnx".to_string(),
        ]
    );
    assert_eq!(model_candidates(None, "m").len(), 2);
}
