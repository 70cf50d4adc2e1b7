use vstd::prelude::*;

verus! {

/// Rows of the key matrix.
pub const ROW: usize = 4;

/// Columns of the key matrix, both halves together.
pub const COL: usize = 14;

/// Layers of the keymap.
pub const NUM_LAYER: usize = 11;

/// Rotary encoders, both halves together.
pub const NUM_ENCODER: usize = 2;

/// How long, in milliseconds, the keys of a combo may take to go down together.
pub const COMBO_TIMEOUT_MS: u64 = 100;

/// The keycodes that this keyboard's tables use.
#[derive(Clone, Copy, Debug, PartialEq, Eq, Structural)]
pub enum KeyCode {
    No,
    A,
    B,
    C,
    D,
    E,
    F,
    G,
    H,
    I,
    J,
    K,
    L,
    M,
    N,
    O,
    P,
    Q,
    R,
    S,
    T,
    U,
    V,
    W,
    X,
    Y,
    Z,
    Kc1,
    Kc2,
    Kc3,
    Kc4,
    Kc5,
    Kc6,
    Kc7,
    Kc8,
    Kc9,
    Kc0,
    Enter,
    Escape,
    Backspace,
    Tab,
    Space,
    Quote,
    Comma,
    Dot,
    Slash,
    Semicolon,
    Delete,
    Left,
    Right,
    Down,
    Up,
    LCtrl,
    LShift,
    LAlt,
    LGui,
    KbVolumeUp,
    KbVolumeDown,
    CapsWordToggle,
}

/// A set of modifier keys, left or right hand.
#[derive(Clone, Copy, Debug, PartialEq, Eq, Structural)]
pub struct ModifierCombination {
    pub right: bool,
    pub gui: bool,
    pub alt: bool,
    pub shift: bool,
    pub ctrl: bool,
}

impl ModifierCombination {
    pub fn new_from(right: bool, gui: bool, alt: bool, shift: bool, ctrl: bool) -> (r: Self)
        ensures
            r == (ModifierCombination { right, gui, alt, shift, ctrl }),
    {
        ModifierCombination { right, gui, alt, shift, ctrl }
    }
}

/// What a key does once its trigger is decided.
#[derive(Clone, Copy, Debug, PartialEq, Eq, Structural)]
pub enum Action {
    Key(KeyCode),
    Modifier(ModifierCombination),
    KeyWithModifier(KeyCode, ModifierCombination),
}

/// The action bound to one key position.
#[derive(Clone, Copy, Debug, PartialEq, Eq, Structural)]
pub enum KeyAction {
    No,
    Transparent,
    Single(Action),
    /// The first action on a tap, the second while held.
    TapHold(Action, Action),
}

/// The actions of one rotary encoder.
#[derive(Clone, Copy, Debug, PartialEq, Eq, Structural)]
pub struct EncoderAction {
    pub clockwise: KeyAction,
    pub counter_clockwise: KeyAction,
}

pub open spec fn key_spec(code: KeyCode) -> KeyAction {
    KeyAction::Single(Action::Key(code))
}

pub open spec fn mod_tap_spec(code: KeyCode, m: ModifierCombination) -> KeyAction {
    KeyAction::TapHold(Action::Key(code), Action::Modifier(m))
}

pub open spec fn with_mod_spec(code: KeyCode, m: ModifierCombination) -> KeyAction {
    KeyAction::Single(Action::KeyWithModifier(code, m))
}

impl KeyAction {
    /// Sends `code` while the key is down.
    pub fn key(code: KeyCode) -> (r: Self)
        ensures
            r == key_spec(code),
    {
        KeyAction::Single(Action::Key(code))
    }

    /// Sends `code` on a tap and holds the modifiers `m` while the key is held.
    pub fn mod_tap(code: KeyCode, m: ModifierCombination) -> (r: Self)
        ensures
            r == mod_tap_spec(code, m),
    {
        KeyAction::TapHold(Action::Key(code), Action::Modifier(m))
    }

    /// Sends `code` together with the modifiers `m`.
    pub fn with_mod(code: KeyCode, m: ModifierCombination) -> (r: Self)
        ensures
            r == with_mod_spec(code, m),
    {
        KeyAction::Single(Action::KeyWithModifier(code, m))
    }
}

impl EncoderAction {
    pub fn new(clockwise: KeyAction, counter_clockwise: KeyAction) -> (r: Self)
        ensures
            r == (EncoderAction { clockwise, counter_clockwise }),
    {
        EncoderAction { clockwise, counter_clockwise }
    }
}

/// The base layer, row by row.
pub open spec fn base_layer_spec() -> Seq<Seq<KeyAction>> {
    seq![
        seq![key_spec(KeyCode::Tab), key_spec(KeyCode::Q), key_spec(KeyCode::W), key_spec(KeyCode::E), key_spec(KeyCode::R), key_spec(KeyCode::T), KeyAction::No, KeyAction::No, key_spec(KeyCode::Y), key_spec(KeyCode::U), key_spec(KeyCode::I), key_spec(KeyCode::O), key_spec(KeyCode::P), key_spec(KeyCode::Backspace)],
        seq![key_spec(KeyCode::Escape), key_spec(KeyCode::A), key_spec(KeyCode::S), key_spec(KeyCode::D), key_spec(KeyCode::F), key_spec(KeyCode::G), KeyAction::No, key_spec(KeyCode::Space), key_spec(KeyCode::H), key_spec(KeyCode::J), key_spec(KeyCode::K), key_spec(KeyCode::L), key_spec(KeyCode::Semicolon), key_spec(KeyCode::Quote)],
        seq![key_spec(KeyCode::LShift), key_spec(KeyCode::Z), key_spec(KeyCode::X), key_spec(KeyCode::C), key_spec(KeyCode::V), key_spec(KeyCode::B), key_spec(KeyCode::Space), KeyAction::No, key_spec(KeyCode::N), key_spec(KeyCode::M), key_spec(KeyCode::Comma), key_spec(KeyCode::Dot), key_spec(KeyCode::Slash), key_spec(KeyCode::Space)],
        seq![key_spec(KeyCode::LCtrl), key_spec(KeyCode::LAlt), key_spec(KeyCode::LGui), key_spec(KeyCode::Backspace), key_spec(KeyCode::Space), key_spec(KeyCode::Enter), KeyAction::No, KeyAction::No, key_spec(KeyCode::Enter), key_spec(KeyCode::Space), key_spec(KeyCode::Delete), key_spec(KeyCode::CapsWordToggle), key_spec(KeyCode::Down), key_spec(KeyCode::Space)],
    ]
}

/// The action at a position of the keymap: the base layer on layer 0,
/// nothing on every other layer.
pub open spec fn keymap_spec(layer: int, row: int, col: int) -> KeyAction {
    if layer == 0 {
        base_layer_spec()[row][col]
    } else {
        KeyAction::No
    }
}

fn empty_row() -> (r: [KeyAction; COL])
    ensures
        forall|c: int| 0 <= c < COL ==> #[trigger] r@[c] == KeyAction::No,
{
    [KeyAction::No; COL]
}

fn empty_layer() -> (r: [[KeyAction; COL]; ROW])
    ensures
        forall|row: int, c: int| 0 <= row < ROW && 0 <= c < COL ==> #[trigger] r@[row]@[c] == KeyAction::No,
{
    [empty_row(), empty_row(), empty_row(), empty_row()]
}

fn base_layer() -> (r: [[KeyAction; COL]; ROW])
    ensures
        forall|row: int, c: int|
            0 <= row < ROW && 0 <= c < COL ==> #[trigger] r@[row]@[c] == base_layer_spec()[row][c],
{
    let row0 = [KeyAction::key(KeyCode::Tab), KeyAction::key(KeyCode::Q), KeyAction::key(KeyCode::W), KeyAction::key(KeyCode::E), KeyAction::key(KeyCode::R), KeyAction::key(KeyCode::T), KeyAction::No, KeyAction::No, KeyAction::key(KeyCode::Y), KeyAction::key(KeyCode::U), KeyAction::key(KeyCode::I), KeyAction::key(KeyCode::O), KeyAction::key(KeyCode::P), KeyAction::key(KeyCode::Backspace)];
    assert(row0@ =~= base_layer_spec()[0]);
    let row1 = [KeyAction::key(KeyCode::Escape), KeyAction::key(KeyCode::A), KeyAction::key(KeyCode::S), KeyAction::key(KeyCode::D), KeyAction::key(KeyCode::F), KeyAction::key(KeyCode::G), KeyAction::No, KeyAction::key(KeyCode::Space), KeyAction::key(KeyCode::H), KeyAction::key(KeyCode::J), KeyAction::key(KeyCode::K), KeyAction::key(KeyCode::L), KeyAction::key(KeyCode::Semicolon), KeyAction::key(KeyCode::Quote)];
    assert(row1@ =~= base_layer_spec()[1]);
    let row2 = [KeyAction::key(KeyCode::LShift), KeyAction::key(KeyCode::Z), KeyAction::key(KeyCode::X), KeyAction::key(KeyCode::C), KeyAction::key(KeyCode::V), KeyAction::key(KeyCode::B), KeyAction::key(KeyCode::Space), KeyAction::No, KeyAction::key(KeyCode::N), KeyAction::key(KeyCode::M), KeyAction::key(KeyCode::Comma), KeyAction::key(KeyCode::Dot), KeyAction::key(KeyCode::Slash), KeyAction::key(KeyCode::Space)];
    assert(row2@ =~= base_layer_spec()[2]);
    let row3 = [KeyAction::key(KeyCode::LCtrl), KeyAction::key(KeyCode::LAlt), KeyAction::key(KeyCode::LGui), KeyAction::key(KeyCode::Backspace), KeyAction::key(KeyCode::Space), KeyAction::key(KeyCode::Enter), KeyAction::No, KeyAction::No, KeyAction::key(KeyCode::Enter), KeyAction::key(KeyCode::Space), KeyAction::key(KeyCode::Delete), KeyAction::key(KeyCode::CapsWordToggle), KeyAction::key(KeyCode::Down), KeyAction::key(KeyCode::Space)];
    assert(row3@ =~= base_layer_spec()[3]);
    let r = [row0, row1, row2, row3];
    assert forall|row: int, c: int|
        0 <= row < ROW && 0 <= c < COL implies #[trigger] r@[row]@[c] == base_layer_spec()[row][c] by {
        if row == 0 {
        } else if row == 1 {
        } else if row == 2 {
        } else {
        }
    }
    r
}

/// The keymap: layer, row, column.
pub fn get_keymap() -> (r: [[[KeyAction; COL]; ROW]; NUM_LAYER])
    ensures
        forall|layer: int, row: int, col: int|
            0 <= layer < NUM_LAYER && 0 <= row < ROW && 0 <= col < COL
                ==> #[trigger] r@[layer]@[row]@[col] == keymap_spec(layer, row, col),
{
    let base = base_layer();
    let no = empty_layer();
    [base, no, no, no, no, no, no, no, no, no, no]
}

/// The encoder actions of a layer: the first encoder moves the cursor on the
/// first four layers and sets the volume above them; the second always sets
/// the volume.
pub open spec fn encoder_spec(layer: int, index: int) -> EncoderAction {
    if index == 0 && layer < 4 {
        EncoderAction { clockwise: key_spec(KeyCode::Left), counter_clockwise: key_spec(KeyCode::Right) }
    } else {
        EncoderAction {
            clockwise: key_spec(KeyCode::KbVolumeUp),
            counter_clockwise: key_spec(KeyCode::KbVolumeDown),
        }
    }
}

/// The encoder map: layer, encoder.
pub fn get_encoder_map() -> (r: [[EncoderAction; NUM_ENCODER]; NUM_LAYER])
    ensures
        forall|layer: int, index: int|
            0 <= layer < NUM_LAYER && 0 <= index < NUM_ENCODER
                ==> #[trigger] r@[layer]@[index] == encoder_spec(layer, index),
{
    let arrows = EncoderAction::new(KeyAction::key(KeyCode::Left), KeyAction::key(KeyCode::Right));
    let volume = EncoderAction::new(KeyAction::key(KeyCode::KbVolumeUp), KeyAction::key(KeyCode::KbVolumeDown));
    let cursor_layer = [arrows, volume];
    let volume_layer = [volume, volume];
    let r = [
        cursor_layer,
        cursor_layer,
        cursor_layer,
        cursor_layer,
        volume_layer,
        volume_layer,
        volume_layer,
        volume_layer,
        volume_layer,
        volume_layer,
        volume_layer,
    ];
    assert forall|layer: int, index: int|
        0 <= layer < NUM_LAYER && 0 <= index < NUM_ENCODER implies #[trigger] r@[layer]@[index]
        == encoder_spec(layer, index) by {
        if layer < 4 {
            assert(r@[layer] == cursor_layer);
        } else {
            assert(r@[layer] == volume_layer);
        }
    }
    r
}

pub open spec fn mod_spec_g() -> ModifierCombination {
    ModifierCombination { right: false, gui: true, alt: false, shift: false, ctrl: false }
}

pub open spec fn mod_spec_a() -> ModifierCombination {
    ModifierCombination { right: false, gui: false, alt: true, shift: false, ctrl: false }
}

pub open spec fn mod_spec_s() -> ModifierCombination {
    ModifierCombination { right: false, gui: false, alt: false, shift: true, ctrl: false }
}

pub open spec fn mod_spec_c() -> ModifierCombination {
    ModifierCombination { right: false, gui: false, alt: false, shift: false, ctrl: true }
}

fn mod_g() -> (r: ModifierCombination)
    ensures
        r == mod_spec_g(),
{
    ModifierCombination::new_from(false, true, false, false, false)
}

fn mod_a() -> (r: ModifierCombination)
    ensures
        r == mod_spec_a(),
{
    ModifierCombination::new_from(false, false, true, false, false)
}

fn mod_s() -> (r: ModifierCombination)
    ensures
        r == mod_spec_s(),
{
    ModifierCombination::new_from(false, false, false, true, false)
}

fn mod_c() -> (r: ModifierCombination)
    ensures
        r == mod_spec_c(),
{
    ModifierCombination::new_from(false, false, false, false, true)
}

/// Keys that, pressed together, send another action.
#[derive(Clone, Copy, Debug)]
pub struct Combo {
    pub actions: [KeyAction; 2],
    pub output: KeyAction,
    /// The only layer on which the combo fires, if any.
    pub layer: Option<u8>,
}

/// A combo as plain values: its keys, its output and its layer.
pub open spec fn combo_view(c: Combo) -> (Seq<KeyAction>, KeyAction, Option<u8>) {
    (c.actions@, c.output, c.layer)
}

impl Combo {
    pub fn new(actions: [KeyAction; 2], output: KeyAction, layer: Option<u8>) -> (r: Self)
        ensures
            r == (Combo { actions, output, layer }),
    {
        Combo { actions, output, layer }
    }
}

/// The combos and how long their keys may take to go down together.
pub struct CombosConfig {
    pub timeout_ms: u64,
    pub combos: Vec<Combo>,
}

/// The combos, each on layer 0: a top-row key with the home-row key below
/// it gives a digit, a home-row key with the bottom-row key below it gives
/// the shifted digit.
pub open spec fn combos_spec() -> Seq<(Seq<KeyAction>, KeyAction, Option<u8>)> {
    seq![
        (seq![key_spec(KeyCode::Q), mod_tap_spec(KeyCode::A, mod_spec_g())], key_spec(KeyCode::Kc1), Some(0u8)),
        (seq![key_spec(KeyCode::W), mod_tap_spec(KeyCode::S, mod_spec_a())], key_spec(KeyCode::Kc2), Some(0u8)),
        (seq![key_spec(KeyCode::E), mod_tap_spec(KeyCode::D, mod_spec_c())], key_spec(KeyCode::Kc3), Some(0u8)),
        (seq![key_spec(KeyCode::R), mod_tap_spec(KeyCode::F, mod_spec_s())], key_spec(KeyCode::Kc4), Some(0u8)),
        (seq![key_spec(KeyCode::T), key_spec(KeyCode::G)], key_spec(KeyCode::Kc5), Some(0u8)),
        (seq![key_spec(KeyCode::Y), key_spec(KeyCode::H)], key_spec(KeyCode::Kc6), Some(0u8)),
        (seq![key_spec(KeyCode::U), mod_tap_spec(KeyCode::J, mod_spec_s())], key_spec(KeyCode::Kc7), Some(0u8)),
        (seq![key_spec(KeyCode::I), mod_tap_spec(KeyCode::K, mod_spec_c())], key_spec(KeyCode::Kc8), Some(0u8)),
        (seq![key_spec(KeyCode::O), mod_tap_spec(KeyCode::L, mod_spec_a())], key_spec(KeyCode::Kc9), Some(0u8)),
        (seq![key_spec(KeyCode::P), mod_tap_spec(KeyCode::Quote, mod_spec_g())], key_spec(KeyCode::Kc0), Some(0u8)),
        (seq![mod_tap_spec(KeyCode::A, mod_spec_g()), key_spec(KeyCode::Z)], with_mod_spec(KeyCode::Kc1, mod_spec_s()), Some(0u8)),
        (seq![mod_tap_spec(KeyCode::S, mod_spec_a()), key_spec(KeyCode::X)], with_mod_spec(KeyCode::Kc2, mod_spec_s()), Some(0u8)),
        (seq![mod_tap_spec(KeyCode::D, mod_spec_c()), key_spec(KeyCode::C)], with_mod_spec(KeyCode::Kc3, mod_spec_s()), Some(0u8)),
        (seq![mod_tap_spec(KeyCode::F, mod_spec_s()), key_spec(KeyCode::V)], with_mod_spec(KeyCode::Kc4, mod_spec_s()), Some(0u8)),
        (seq![key_spec(KeyCode::G), key_spec(KeyCode::B)], with_mod_spec(KeyCode::Kc5, mod_spec_s()), Some(0u8)),
        (seq![key_spec(KeyCode::H), key_spec(KeyCode::N)], with_mod_spec(KeyCode::Kc6, mod_spec_s()), Some(0u8)),
        (seq![mod_tap_spec(KeyCode::J, mod_spec_s()), key_spec(KeyCode::M)], with_mod_spec(KeyCode::Kc7, mod_spec_s()), Some(0u8)),
        (seq![mod_tap_spec(KeyCode::K, mod_spec_c()), key_spec(KeyCode::Comma)], with_mod_spec(KeyCode::Kc8, mod_spec_s()), Some(0u8)),
        (seq![mod_tap_spec(KeyCode::L, mod_spec_a()), key_spec(KeyCode::Dot)], with_mod_spec(KeyCode::Kc9, mod_spec_s()), Some(0u8)),
        (seq![mod_tap_spec(KeyCode::Quote, mod_spec_g()), key_spec(KeyCode::Slash)], with_mod_spec(KeyCode::Kc0, mod_spec_s()), Some(0u8)),
    ]
}

fn combo(a: KeyAction, b: KeyAction, output: KeyAction) -> (r: Combo)
    ensures
        combo_view(r) == (seq![a, b], output, Some(0u8)),
{
    let r = Combo::new([a, b], output, Some(0));
    assert(r.actions@ =~= seq![a, b]);
    r
}

/// The combo table.
pub fn get_combos() -> (r: CombosConfig)
    ensures
        r.timeout_ms == COMBO_TIMEOUT_MS,
        r.combos@.len() == combos_spec().len(),
        forall|i: int| 0 <= i < r.combos@.len() ==> #[trigger] combo_view(r.combos@[i]) == combos_spec()[i],
{
    let combos = vec![
        combo(KeyAction::key(KeyCode::Q), KeyAction::mod_tap(KeyCode::A, mod_g()), KeyAction::key(KeyCode::Kc1)),
        combo(KeyAction::key(KeyCode::W), KeyAction::mod_tap(KeyCode::S, mod_a()), KeyAction::key(KeyCode::Kc2)),
        combo(KeyAction::key(KeyCode::E), KeyAction::mod_tap(KeyCode::D, mod_c()), KeyAction::key(KeyCode::Kc3)),
        combo(KeyAction::key(KeyCode::R), KeyAction::mod_tap(KeyCode::F, mod_s()), KeyAction::key(KeyCode::Kc4)),
        combo(KeyAction::key(KeyCode::T), KeyAction::key(KeyCode::G), KeyAction::key(KeyCode::Kc5)),
        combo(KeyAction::key(KeyCode::Y), KeyAction::key(KeyCode::H), KeyAction::key(KeyCode::Kc6)),
        combo(KeyAction::key(KeyCode::U), KeyAction::mod_tap(KeyCode::J, mod_s()), KeyAction::key(KeyCode::Kc7)),
        combo(KeyAction::key(KeyCode::I), KeyAction::mod_tap(KeyCode::K, mod_c()), KeyAction::key(KeyCode::Kc8)),
        combo(KeyAction::key(KeyCode::O), KeyAction::mod_tap(KeyCode::L, mod_a()), KeyAction::key(KeyCode::Kc9)),
        combo(KeyAction::key(KeyCode::P), KeyAction::mod_tap(KeyCode::Quote, mod_g()), KeyAction::key(KeyCode::Kc0)),
        combo(KeyAction::mod_tap(KeyCode::A, mod_g()), KeyAction::key(KeyCode::Z), KeyAction::with_mod(KeyCode::Kc1, mod_s())),
        combo(KeyAction::mod_tap(KeyCode::S, mod_a()), KeyAction::key(KeyCode::X), KeyAction::with_mod(KeyCode::Kc2, mod_s())),
        combo(KeyAction::mod_tap(KeyCode::D, mod_c()), KeyAction::key(KeyCode::C), KeyAction::with_mod(KeyCode::Kc3, mod_s())),
        combo(KeyAction::mod_tap(KeyCode::F, mod_s()), KeyAction::key(KeyCode::V), KeyAction::with_mod(KeyCode::Kc4, mod_s())),
        combo(KeyAction::key(KeyCode::G), KeyAction::key(KeyCode::B), KeyAction::with_mod(KeyCode::Kc5, mod_s())),
        combo(KeyAction::key(KeyCode::H), KeyAction::key(KeyCode::N), KeyAction::with_mod(KeyCode::Kc6, mod_s())),
        combo(KeyAction::mod_tap(KeyCode::J, mod_s()), KeyAction::key(KeyCode::M), KeyAction::with_mod(KeyCode::Kc7, mod_s())),
        combo(KeyAction::mod_tap(KeyCode::K, mod_c()), KeyAction::key(KeyCode::Comma), KeyAction::with_mod(KeyCode::Kc8, mod_s())),
        combo(KeyAction::mod_tap(KeyCode::L, mod_a()), KeyAction::key(KeyCode::Dot), KeyAction::with_mod(KeyCode::Kc9, mod_s())),
        combo(KeyAction::mod_tap(KeyCode::Quote, mod_g()), KeyAction::key(KeyCode::Slash), KeyAction::with_mod(KeyCode::Kc0, mod_s())),
    ];
    CombosConfig { timeout_ms: COMBO_TIMEOUT_MS, combos }
}

/// The macro sequences, as the bytes that the keyboard stores them in.
pub struct KeyboardMacrosConfig {
    pub macro_sequences: Vec<u8>,
}

/// The macro table: this keyboard defines no macros.
pub fn get_macros() -> (r: KeyboardMacrosConfig)
    ensures
        r.macro_sequences@ == Seq::<u8>::empty(),
{
    KeyboardMacrosConfig { macro_sequences: Vec::new() }
}

/// A tap-dance style key: which action a pattern of taps and holds sends.
pub struct Morse {
    /// Each pattern, as a bit string of taps and holds, with its action.
    pub actions: Vec<(u16, Action)>,
}

/// The morse keys.
pub struct MorsesConfig {
    pub morses: Vec<Morse>,
}

/// The morse table: this keyboard defines no morse keys.
pub fn get_morses() -> (r: MorsesConfig)
    ensures
        r.morses@.len() == 0,
{
    MorsesConfig { morses: Vec::new() }
}

} // verus!
