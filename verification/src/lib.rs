//! Verified core of the Lenzu OCR lens: overlay text rendering, HUD IPC
//! message framing and routing, furigana markup, and the lens state machine.

pub mod text;
pub mod overlay;
pub mod furigana_html;
pub mod hud_ipc;
pub mod lang;
pub mod lens;
pub mod color;
pub mod grabs;
pub mod launch;
pub mod pipeline;
