//! The passive X11 grabs that deliver the lens's key combos and Shift+Click
//! even though the override-redirect lens window never has focus.

use vstd::prelude::*;
use crate::lens::{CONTROL_MASK, KEYCODE_ESC, KEYCODE_H, KEYCODE_TAB, LOCK_MASK, MOD2_MASK, SHIFT_MASK};

verus! {

/// One passive grab on the root window.
#[derive(Clone, Copy, Debug, PartialEq, Eq, Structural)]
pub enum Grab {
    /// A key press of `keycode` with exactly `modifiers` held.
    Key { modifiers: u16, keycode: u8 },
    /// A press of mouse button 1 with exactly `modifiers` held.
    Button1 { modifiers: u16 },
}

/// The lock-modifier combinations every combo is registered under (none,
/// Caps Lock, Num Lock, both), so grabs fire whatever the lock state.
pub open spec fn lock_variants() -> Seq<u16> {
    seq![0u16, LOCK_MASK, MOD2_MASK, LOCK_MASK | MOD2_MASK]
}

/// The grabs registered for one lock combination: Escape, Shift+Escape,
/// Shift+H, Shift+Tab, Shift+Button1 and Ctrl+Shift+Button1.
pub open spec fn grabs_for_lock(lock: u16) -> Seq<Grab> {
    seq![
        Grab::Key { modifiers: lock, keycode: KEYCODE_ESC },
        Grab::Key { modifiers: SHIFT_MASK | lock, keycode: KEYCODE_ESC },
        Grab::Key { modifiers: SHIFT_MASK | lock, keycode: KEYCODE_H },
        Grab::Key { modifiers: SHIFT_MASK | lock, keycode: KEYCODE_TAB },
        Grab::Button1 { modifiers: SHIFT_MASK | lock },
        Grab::Button1 { modifiers: CONTROL_MASK | SHIFT_MASK | lock },
    ]
}

/// All grabs, lock combination by lock combination.
pub open spec fn grab_plan() -> Seq<Grab> {
    grabs_for_lock(lock_variants()[0]) + grabs_for_lock(lock_variants()[1]) + grabs_for_lock(
        lock_variants()[2],
    ) + grabs_for_lock(lock_variants()[3])
}

fn push_grabs_for_lock(grabs: &mut Vec<Grab>, lock: u16)
    ensures
        final(grabs)@ == old(grabs)@ + grabs_for_lock(lock),
{
    grabs.push(Grab::Key { modifiers: lock, keycode: KEYCODE_ESC });
    grabs.push(Grab::Key { modifiers: SHIFT_MASK | lock, keycode: KEYCODE_ESC });
    grabs.push(Grab::Key { modifiers: SHIFT_MASK | lock, keycode: KEYCODE_H });
    grabs.push(Grab::Key { modifiers: SHIFT_MASK | lock, keycode: KEYCODE_TAB });
    grabs.push(Grab::Button1 { modifiers: SHIFT_MASK | lock });
    grabs.push(Grab::Button1 { modifiers: CONTROL_MASK | SHIFT_MASK | lock });
    assert(final(grabs)@ =~= old(grabs)@ + grabs_for_lock(lock));
}

/// The passive grabs to register, in registration order.
pub fn key_grabs() -> (grabs: Vec<Grab>)
    ensures
        grabs@ == grab_plan(),
{
    let mut grabs: Vec<Grab> = Vec::new();
    push_grabs_for_lock(&mut grabs, 0);
    push_grabs_for_lock(&mut grabs, LOCK_MASK);
    push_grabs_for_lock(&mut grabs, MOD2_MASK);
    push_grabs_for_lock(&mut grabs, LOCK_MASK | MOD2_MASK);
    assert(grabs@ =~= grab_plan());
    grabs
}

/// Each combo is grabbed under every lock combination.
pub proof fn law_combos_grabbed_under_every_lock(lock: u16)
    requires
        lock_variants().contains(lock),
    ensures
        grab_plan().contains(Grab::Key { modifiers: lock, keycode: KEYCODE_ESC }),
        grab_plan().contains(Grab::Key { modifiers: SHIFT_MASK | lock, keycode: KEYCODE_ESC }),
        grab_plan().contains(Grab::Key { modifiers: SHIFT_MASK | lock, keycode: KEYCODE_H }),
        grab_plan().contains(Grab::Key { modifiers: SHIFT_MASK | lock, keycode: KEYCODE_TAB }),
        grab_plan().contains(Grab::Button1 { modifiers: SHIFT_MASK | lock }),
        grab_plan().contains(Grab::Button1 { modifiers: CONTROL_MASK | SHIFT_MASK | lock }),
{
    let k = choose|k: int| 0 <= k < lock_variants().len() && lock_variants()[k] == lock;
    let base = 6 * k;
    assert(grab_plan()[base] == Grab::Key { modifiers: lock, keycode: KEYCODE_ESC });
    assert(grab_plan()[base + 1] == Grab::Key { modifiers: SHIFT_MASK | lock, keycode: KEYCODE_ESC });
    assert(grab_plan()[base + 2] == Grab::Key { modifiers: SHIFT_MASK | lock, keycode: KEYCODE_H });
    assert(grab_plan()[base + 3] == Grab::Key { modifiers: SHIFT_MASK | lock, keycode: KEYCODE_TAB });
    assert(grab_plan()[base + 4] == Grab::Button1 { modifiers: SHIFT_MASK | lock });
    assert(grab_plan()[base + 5] == Grab::Button1 { modifiers: CONTROL_MASK | SHIFT_MASK | lock });
}

} // verus!
