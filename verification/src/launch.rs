//! What the lens application shows and launches besides the lens itself:
//! the help and about texts, the HUD process to spawn, and where text
//! detection models are looked for.

use vstd::prelude::*;
use vstd::string::*;
use crate::text::{decimal, decimal_string, opt_string_view};

verus! {

/// The body of the help dialog after its title line.
pub open spec fn help_body() -> Seq<char> {
    "\n━━━━━━━━━━━━━━━━━━━━━━━━━━\nショートカット一覧\n\nShift＋クリック\n  → レンズ内のテキストをOCR・翻訳\n\nCtrl＋Shift＋クリック\n  → 全画面スキャン\n    （カーソル最近傍のテキストを翻訳）\n\nShift＋Tab\n  → 翻訳方向を切り替え\n    （🇯🇵→🇺🇸  ⟷  🇺🇸→🇯🇵）\n\nShift＋H\n  → このヘルプを表示\n\nESC\n  → 実行中のOCRをキャンセル\n\nShift＋ESC\n  → 終了"@
}

/// The help dialog text for version `version`.
pub open spec fn help_text_of(version: Seq<char>) -> Seq<char> {
    "Lenzu v"@ + version + help_body()
}

/// The help dialog listing all keyboard shortcuts, in Japanese.
pub fn help_text(version: &str) -> (text: String)
    ensures
        text@ == help_text_of(version@),
{
    let mut text = String::new();
    text.append("Lenzu v");
    text.append(version);
    text.append("\n━━━━━━━━━━━━━━━━━━━━━━━━━━\nショートカット一覧\n\nShift＋クリック\n  → レンズ内のテキストをOCR・翻訳\n\nCtrl＋Shift＋クリック\n  → 全画面スキャン\n    （カーソル最近傍のテキストを翻訳）\n\nShift＋Tab\n  → 翻訳方向を切り替え\n    （🇯🇵→🇺🇸  ⟷  🇺🇸→🇯🇵）\n\nShift＋H\n  → このヘルプを表示\n\nESC\n  → 実行中のOCRをキャンセル\n\nShift＋ESC\n  → 終了");
    assert(text@ =~= help_text_of(version@));
    text
}

/// What the about dialog shows when neither notices file can be read.
pub open spec fn notices_missing() -> Seq<char> {
    "Third-party notices not found.  See:\n/usr/share/doc/lenzu/NOTICES.md\nhttps://github.com/CodeMonkeyNinja/lenzu"@
}

/// The about dialog body: the curated notices and the crate notices,
/// separated by a rule when both are present.
pub open spec fn about_body_of(curated: Option<Seq<char>>, crates: Option<Seq<char>>) -> Seq<char> {
    match (curated, crates) {
        (Some(c), Some(k)) => c + "\n\n---\n\n"@ + k,
        (Some(c), None) => c,
        (None, Some(k)) => k,
        (None, None) => notices_missing(),
    }
}

/// Composes the about dialog body from the notices files that could be read.
pub fn about_body(curated: Option<String>, crates: Option<String>) -> (body: String)
    ensures
        body@ == about_body_of(opt_string_view(curated), opt_string_view(crates)),
{
    match (curated, crates) {
        (Some(c), Some(k)) => {
            let mut body = c;
            body.append("\n\n---\n\n");
            body.append(k.as_str());
            body
        },
        (Some(c), None) => c,
        (None, Some(k)) => k,
        (None, None) => String::from_str(
            "Third-party notices not found.  See:\n/usr/share/doc/lenzu/NOTICES.md\nhttps://github.com/CodeMonkeyNinja/lenzu",
        ),
    }
}

/// How the HUD process is started.
#[derive(Clone, Debug)]
pub enum HudLaunch {
    /// An installed `lenzu-hud` found on `PATH`.
    OnPath,
    /// From the development tree: `node_modules/.bin/electron dist/main.js`
    /// run in `dir`.
    DevTree { dir: String },
    /// From inside an AppImage: `<appdir>/usr/bin/lenzu-hud`, which is not
    /// on `PATH` there.
    AppImage { appdir: String },
}

/// The HUD lookup order: an installed `lenzu-hud` on `PATH` first (the
/// packaged install); failing that the development tree; failing that an
/// AppImage's own copy; and otherwise `lenzu-hud` by name, for `PATH` to
/// resolve at spawn time.
pub open spec fn hud_launch_plan(
    installed_on_path: bool,
    dev_dir: Option<Seq<char>>,
    appdir: Option<Seq<char>>,
) -> HudLaunchPlan {
    if installed_on_path {
        HudLaunchPlan::OnPath
    } else {
        match dev_dir {
            Some(d) => HudLaunchPlan::DevTree(d),
            None => match appdir {
                Some(a) => HudLaunchPlan::AppImage(a),
                None => HudLaunchPlan::OnPath,
            },
        }
    }
}

/// The mathematical content of a `HudLaunch`.
pub enum HudLaunchPlan {
    OnPath,
    DevTree(Seq<char>),
    AppImage(Seq<char>),
}

impl View for HudLaunch {
    type V = HudLaunchPlan;

    open spec fn view(&self) -> HudLaunchPlan {
        match self {
            HudLaunch::OnPath => HudLaunchPlan::OnPath,
            HudLaunch::DevTree { dir } => HudLaunchPlan::DevTree(dir@),
            HudLaunch::AppImage { appdir } => HudLaunchPlan::AppImage(appdir@),
        }
    }
}

/// Chooses how to start the HUD, given whether `lenzu-hud` is installed on
/// `PATH`, the development tree's `lenzu_server` directory if there is one,
/// and `$APPDIR` if set.
pub fn hud_launch(installed_on_path: bool, dev_dir: Option<String>, appdir: Option<String>) -> (l: HudLaunch)
    ensures
        l@ == hud_launch_plan(installed_on_path, opt_string_view(dev_dir), opt_string_view(appdir)),
{
    if installed_on_path {
        return HudLaunch::OnPath;
    }
    match dev_dir {
        Some(dir) => HudLaunch::DevTree { dir },
        None => match appdir {
            Some(appdir) => HudLaunch::AppImage { appdir },
            None => HudLaunch::OnPath,
        },
    }
}

/// An installed HUD always wins over a development tree and an AppImage.
pub proof fn law_installed_hud_first(dev_dir: Option<Seq<char>>, appdir: Option<Seq<char>>)
    ensures
        hud_launch_plan(true, dev_dir, appdir) == HudLaunchPlan::OnPath,
{
}

/// The environment the HUD process gets: its UDP port, and client-side
/// decorations off.
pub open spec fn hud_env_of(port: u16) -> Seq<(Seq<char>, Seq<char>)> {
    seq![("LENZU_OVERLAY_UDP_PORT"@, decimal(port as nat)), ("GTK_CSD"@, "0"@)]
}

/// The environment variables to set for the HUD process.
pub fn hud_env(port: u16) -> (env: Vec<(String, String)>)
    ensures
        env@.len() == 2,
        forall|i: int| 0 <= i < 2 ==> (#[trigger] env@[i]).0@ == hud_env_of(port)[i].0 && env@[i].1@
            == hud_env_of(port)[i].1,
{
    let mut env: Vec<(String, String)> = Vec::new();
    env.push((String::from_str("LENZU_OVERLAY_UDP_PORT"), decimal_string(port as u64)));
    env.push((String::from_str("GTK_CSD"), String::from_str("0")));
    env
}

/// The XDG data directory: `$XDG_DATA_HOME` when set and non-empty,
/// otherwise `$HOME/.local/share`.
pub open spec fn xdg_data_of(xdg_data_home: Option<Seq<char>>, home: Option<Seq<char>>) -> Option<Seq<char>> {
    match xdg_data_home {
        Some(x) if x.len() > 0 => Some(x),
        _ => match home {
            Some(h) => Some(h + "/.local/share"@),
            None => None,
        },
    }
}

/// The XDG data directory, from the values of `XDG_DATA_HOME` and `HOME`.
pub fn xdg_data_dir(xdg_data_home: Option<String>, home: Option<String>) -> (dir: Option<String>)
    ensures
        opt_string_view(dir) == xdg_data_of(opt_string_view(xdg_data_home), opt_string_view(home)),
{
    match xdg_data_home {
        Some(x) if x.unicode_len() > 0 => Some(x),
        _ => match home {
            Some(h) => {
                let mut d = h;
                d.append("/.local/share");
                Some(d)
            },
            None => None,
        },
    }
}

/// Where a model file named `basename` is looked for, in order: the user's
/// data directory, then the system-wide and the local installs.
pub open spec fn model_candidates_of(xdg_data: Option<Seq<char>>, basename: Seq<char>) -> Seq<Seq<char>> {
    let system = seq![
        "/usr/share/lenzu/models/"@ + basename,
        "/usr/local/share/lenzu/models/"@ + basename,
    ];
    match xdg_data {
        Some(d) => seq![d + "/lenzu/models/"@ + basename] + system,
        None => system,
    }
}

/// The candidate paths for a text detection model named `basename`.
pub fn model_candidates(xdg_data: Option<String>, basename: &str) -> (paths: Vec<String>)
    ensures
        paths@.map_values(|p: String| p@) == model_candidates_of(opt_string_view(xdg_data), basename@),
{
    let mut paths: Vec<String> = Vec::new();
    match xdg_data {
        Some(d) => {
            let mut p = d;
            p.append("/lenzu/models/");
            p.append(basename);
            paths.push(p);
        },
        None => {},
    }
    let mut p1 = String::from_str("/usr/share/lenzu/models/");
    p1.append(basename);
    paths.push(p1);
    let mut p2 = String::from_str("/usr/local/share/lenzu/models/");
    p2.append(basename);
    paths.push(p2);
    assert(paths@.map_values(|p: String| p@) =~= model_candidates_of(
        opt_string_view(xdg_data),
        basename@,
    ));
    paths
}

} // verus!
