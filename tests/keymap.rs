use cornix::keymap::{
    get_combos, get_encoder_map, get_keymap, get_macros, get_morses, Action, EncoderAction, KeyAction, KeyCode,
    ModifierCombination, COL, COMBO_TIMEOUT_MS, NUM_ENCODER, NUM_LAYER, ROW,
};

fn k(code: KeyCode) -> KeyAction {
    KeyAction::Single(Action::Key(code))
}

#[test]
fn keymap_first_slot_is_tab() {
    let keymap = get_keymap();
    assert_eq!(keymap[0][0][0], k(KeyCode::Tab));
}

#[test]
fn keymap_base_layer_rows() {
    let keymap = get_keymap();
    assert_eq!(keymap.len(), NUM_LAYER);
    assert_eq!(keymap[0].len(), ROW);
    assert_eq!(keymap[0][0].len(), COL);
    assert_eq!(keymap[0][0][13], k(KeyCode::Backspace));
    assert_eq!(keymap[0][0][6], KeyAction::No);
    assert_eq!(keymap[0][1][7], k(KeyCode::Space));
    assert_eq!(keymap[0][2][0], k(KeyCode::LShift));
    assert_eq!(keymap[0][3][11], k(KeyCode::CapsWordToggle));
    assert_eq!(keymap[0][3][12], k(KeyCode::Down));
}

#[test]
fn keymap_upper_layers_are_empty() {
    let keymap = get_keymap();
    for layer in 1..NUM_LAYER {
        for row in 0..ROW {
            for col in 0..COL {
                assert_eq!(keymap[layer][row][col], KeyAction::No);
            }
        }
    }
}

#[test]
fn encoder_map_layers() {
    let map = get_encoder_map();
    assert_eq!(map.len(), NUM_LAYER);
    assert_eq!(map[0].len(), NUM_ENCODER);
    let arrows = EncoderAction { clockwise: k(KeyCode::Left), counter_clockwise: k(KeyCode::Right) };
    let volume = EncoderAction { clockwise: k(KeyCode::KbVolumeUp), counter_clockwise: k(KeyCode::KbVolumeDown) };
    for layer in 0..4 {
        assert_eq!(map[layer], [arrows, volume]);
    }
    for layer in 4..NUM_LAYER {
        assert_eq!(map[layer], [volume, volume]);
    }
}

#[test]
fn combo_table() {
    let combos = get_combos();
    assert_eq!(combos.timeout_ms, COMBO_TIMEOUT_MS);
    assert_eq!(combos.timeout_ms, 100);
    assert_eq!(combos.combos.len(), 20);
    let gui = ModifierCombination::new_from(false, true, false, false, false);
    let shift = ModifierCombination::new_from(false, false, false, true, false);
    let first = combos.combos[0];
    assert_eq!(first.actions, [k(KeyCode::Q), KeyAction::mod_tap(KeyCode::A, gui)]);
    assert_eq!(first.output, k(KeyCode::Kc1));
    assert_eq!(first.layer, Some(0));
    let last = combos.combos[19];
    assert_eq!(last.actions, [KeyAction::mod_tap(KeyCode::Quote, gui), k(KeyCode::Slash)]);
    assert_eq!(last.output, KeyAction::with_mod(KeyCode::Kc0, shift));
    assert!(combos.combos.iter().all(|c| c.layer == Some(0)));
}

#[test]
fn modifier_constructor() {
    let m = ModifierCombination::new_from(true, false, true, false, true);
    assert!(m.right && !m.gui && m.alt && !m.shift && m.ctrl);
    assert_eq!(
        KeyAction::mod_tap(KeyCode::J, m),
        KeyAction::TapHold(Action::Key(KeyCode::J), Action::Modifier(m))
    );
}

#[test]
fn no_macros_and_no_morses() {
    assert!(get_macros().macro_sequences.is_empty());
    assert!(get_morses().morses.is_empty());
}
