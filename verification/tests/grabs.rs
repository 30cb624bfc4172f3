use lenzu::grabs::{key_grabs, Grab};
use lenzu::lens::{KEYCODE_ESC, KEYCODE_H, KEYCODE_TAB};

#[test]
fn every_combo_under_every_lock_state() {
    let grabs = key_grabs();
    assert_eq!(grabs.len(), 24);
    for lock in [0u16, 2, 16, 18] {
        assert!(grabs.contains(&Grab::Key { modifiers: lock, keycode: KEYCODE_ESC }));
        assert!(grabs.contains(&Grab::Key { modifiers: 1 | lock, keycode: KEYCODE_ESC }));
        assert!(grabs.contains(&Grab::Key { modifiers: 1 | lock, keycode: KEYCODE_H }));
        assert!(grabs.contains(&Grab::Key { modifiers: 1 | lock, keycode: KEYCODE_TAB }));
        assert!(grabs.contains(&Grab::Button1 { modifiers: 1 | lock }));
        assert!(grabs.contains(&Grab::Button1 { modifiers: 5 | lock }));
    }
    assert_eq!(grabs[0], Grab::Key { modifiers: 0, keycode: 9 });
    assert_eq!(grabs[23], Grab::Button1 { modifiers: 23 });
}
