use libg::ghostty_input::{ghostty_mods, ModifierKeys};

fn keys(shift: bool, control: bool, option: bool, command: bool, caps_lock: bool, numeric_pad: bool) -> ModifierKeys {
    ModifierKeys { shift, control, option, command, caps_lock, numeric_pad }
}

#[test]
fn modifiers_map_to_ghostty_bits() {
    assert_eq!(ghostty_mods(&keys(false, false, false, false, false, false)), 0);
    assert_eq!(ghostty_mods(&keys(true, false, false, false, false, false)), 1);
    assert_eq!(ghostty_mods(&keys(false, true, false, false, false, false)), 2);
    assert_eq!(ghostty_mods(&keys(false, false, true, false, false, false)), 4);
    assert_eq!(ghostty_mods(&keys(false, false, false, true, false, false)), 8);
    assert_eq!(ghostty_mods(&keys(false, false, false, false, true, false)), 16);
    assert_eq!(ghostty_mods(&keys(false, false, false, false, false, true)), 32);
    assert_eq!(ghostty_mods(&keys(true, true, true, true, true, true)), 63);
    assert_eq!(ghostty_mods(&keys(true, false, false, true, false, false)), 9);
}
