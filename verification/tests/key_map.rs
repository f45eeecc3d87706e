use naga_remap::error::ErrorKind;
use naga_remap::input::{Input, InputKey, InputKeyPad};
use naga_remap::key_map::{KeyMapper, FIRST_CODE, SLOTS};
use uinput::event::keyboard::{Key, KeyPad};

const DEFAULTS: [Key; 12] = [
    Key::_1,
    Key::_2,
    Key::_3,
    Key::_4,
    Key::_5,
    Key::_6,
    Key::_7,
    Key::_8,
    Key::_9,
    Key::_0,
    Key::Minus,
    Key::Equal,
];

fn entries(pairs: &[(&str, &str)]) -> Vec<(String, String)> {
    pairs.iter().map(|(slot, key)| (slot.to_string(), key.to_string())).collect()
}

fn load(pairs: &[(&str, &str)]) -> Result<KeyMapper, (ErrorKind, String)> {
    KeyMapper::from_entries(&entries(pairs)).map_err(|error| (error.kind, error.detail))
}

#[test]
fn default_is_the_number_row() {
    let mapper = KeyMapper::default();
    assert_eq!(SLOTS, 12);
    for (index, key) in DEFAULTS.iter().enumerate() {
        assert_eq!(mapper.keys[index], Input::InputKey(InputKey(*key)));
    }
}

#[test]
fn get_maps_codes_two_to_thirteen_to_the_slots_in_order() {
    let mapper = KeyMapper::default();
    assert_eq!(FIRST_CODE, 2);
    for slot in 1..=12u16 {
        assert_eq!(mapper.get(slot + 1), Some(Input::from(DEFAULTS[slot as usize - 1])));
    }
    assert_eq!(mapper.get(2), Some(Input::from(Key::_1)));
    assert_eq!(mapper.get(3), Some(Input::from(Key::_2)));
    assert_eq!(mapper.get(11), Some(Input::from(Key::_0)));
    assert_eq!(mapper.get(12), Some(Input::from(Key::Minus)));
    assert_eq!(mapper.get(13), Some(Input::from(Key::Equal)));
}

#[test]
fn by_default_every_button_sends_the_key_it_reports() {
    let mapper = KeyMapper::default();
    for code in 2..=13u16 {
        assert_eq!(mapper.get(code).map(|key| key.code()), Some(code as i32));
    }
}

#[test]
fn get_has_no_key_for_codes_below_the_first_button() {
    let mapper = KeyMapper::default();
    assert_eq!(mapper.get(0), None);
    assert_eq!(mapper.get(1), None);
}

#[test]
fn get_has_no_key_for_codes_past_the_last_button() {
    let mapper = KeyMapper::default();
    for code in [14u16, 15, 30, 255, 256, 272, 0x2ff, u16::MAX] {
        assert_eq!(mapper.get(code), None);
    }
}

#[test]
fn set_changes_one_slot() {
    let mut mapper = KeyMapper::default();
    assert!(mapper.set(1, Input::from(KeyPad::Plus)));
    assert!(mapper.set(12, Input::from(Key::F12)));
    assert_eq!(mapper.get(2), Some(Input::from(KeyPad::Plus)));
    assert_eq!(mapper.get(13), Some(Input::from(Key::F12)));
    for slot in 2..=11u16 {
        assert_eq!(mapper.get(slot + 1), Some(Input::from(DEFAULTS[slot as usize - 1])));
    }
}

#[test]
fn set_refuses_slots_outside_one_to_twelve() {
    let mut mapper = KeyMapper::default();
    assert!(!mapper.set(0, Input::from(Key::A)));
    assert!(!mapper.set(13, Input::from(Key::A)));
    assert!(!mapper.set(usize::MAX, Input::from(Key::A)));
    assert_eq!(mapper, KeyMapper::default());
}

#[test]
fn empty_configuration_is_the_default() {
    assert_eq!(load(&[]), Ok(KeyMapper::default()));
}

#[test]
fn override_changes_only_its_slot() {
    let names = [("A", Input::from(Key::A)), ("F24", Input::from(Key::F24)),
        ("KP::_0", Input::from(KeyPad::_0)), ("Reserved", Input::from(Key::Reserved)),
        ("KP::RightParen", Input::from(KeyPad::RightParen))];
    for slot in 1..=12usize {
        for (name, key) in names {
            let mapper = load(&[(&slot.to_string(), name)]).unwrap();
            for index in 0..12usize {
                if index == slot - 1 {
                    assert_eq!(mapper.keys[index], key);
                } else {
                    assert_eq!(mapper.keys[index], Input::from(DEFAULTS[index]));
                }
            }
        }
    }
}

#[test]
fn slot_numbers_may_carry_a_sign_or_zeros() {
    let mapper = load(&[("+3", "X"), ("012", "Y")]).unwrap();
    assert_eq!(mapper.get(4), Some(Input::from(Key::X)));
    assert_eq!(mapper.get(13), Some(Input::from(Key::Y)));
}

#[test]
fn slot_zero_is_invalid() {
    assert_eq!(load(&[("0", "A")]), Err((ErrorKind::InvalidSlot, "0".to_string())));
}

#[test]
fn slot_thirteen_is_invalid() {
    assert_eq!(load(&[("13", "A")]), Err((ErrorKind::InvalidSlot, "13".to_string())));
}

#[test]
fn slots_outside_the_range_are_invalid_wherever_they_stand() {
    for slot in ["0", "13", "14", "100", "+0", "0012345", &usize::MAX.to_string()] {
        assert_eq!(load(&[(slot, "A")]), Err((ErrorKind::InvalidSlot, slot.to_string())));
        assert_eq!(
            load(&[("1", "B"), (slot, "A"), ("2", "C")]),
            Err((ErrorKind::InvalidSlot, slot.to_string()))
        );
    }
}

#[test]
fn slot_that_is_no_number_is_a_parse_error() {
    for slot in ["", "one", "-1", "1.5", " 1", "0x2", "+", "99999999999999999999999999"] {
        assert_eq!(load(&[(slot, "A")]), Err((ErrorKind::ConfigParse, slot.to_string())));
    }
}

#[test]
fn unknown_key_name_is_invalid() {
    for name in ["", "a", "Escape", "KP::A", "Mute", "_10"] {
        assert_eq!(load(&[("1", name)]), Err((ErrorKind::InvalidKeyName, name.to_string())));
    }
}

#[test]
fn unknown_key_name_is_reported_before_any_slot() {
    assert_eq!(
        load(&[("0", "A"), ("x", "B"), ("3", "Nope")]),
        Err((ErrorKind::InvalidKeyName, "Nope".to_string()))
    );
    assert_eq!(
        load(&[("1", "First"), ("2", "Second")]),
        Err((ErrorKind::InvalidKeyName, "First".to_string()))
    );
}

#[test]
fn first_bad_slot_is_the_one_reported() {
    assert_eq!(load(&[("x", "A"), ("0", "B")]), Err((ErrorKind::ConfigParse, "x".to_string())));
    assert_eq!(load(&[("0", "A"), ("x", "B")]), Err((ErrorKind::InvalidSlot, "0".to_string())));
}

#[test]
fn later_entry_for_a_slot_wins() {
    let mapper = load(&[("1", "A"), ("01", "B"), ("2", "C"), ("+1", "KP::Dot")]).unwrap();
    assert_eq!(mapper.get(2), Some(Input::InputKeyPad(InputKeyPad(KeyPad::Dot))));
    assert_eq!(mapper.get(3), Some(Input::from(Key::C)));
    assert_eq!(mapper.get(4), Some(Input::from(Key::_3)));
}

#[test]
fn all_slots_can_be_overridden_at_once() {
    let names = ["Q", "W", "E", "R", "T", "Y", "U", "I", "O", "P", "LeftBrace", "RightBrace"];
    let keys = [Key::Q, Key::W, Key::E, Key::R, Key::T, Key::Y, Key::U, Key::I, Key::O, Key::P,
        Key::LeftBrace, Key::RightBrace];
    let slots: Vec<String> = (1..=12).map(|n| n.to_string()).collect();
    let pairs: Vec<(&str, &str)> = (0..12).rev().map(|i| (slots[i].as_str(), names[i])).collect();
    let mapper = load(&pairs).unwrap();
    for index in 0..12 {
        assert_eq!(mapper.keys[index], Input::from(keys[index]));
    }
}

#[test]
fn overriding_slot_one_with_its_default_gives_the_default() {
    assert_eq!(load(&[("1", "_1")]), Ok(KeyMapper::default()));
    let mut direct = KeyMapper::default();
    assert!(direct.set(1, Input::from(Key::_1)));
    assert_eq!(load(&[("1", "_1")]), Ok(direct));
}

#[test]
fn overriding_any_slot_with_its_default_gives_the_default() {
    let names = ["_1", "_2", "_3", "_4", "_5", "_6", "_7", "_8", "_9", "_0", "Minus", "Equal"];
    for slot in 1..=12usize {
        assert_eq!(load(&[(&slot.to_string(), names[slot - 1])]), Ok(KeyMapper::default()));
    }
}

#[test]
fn failed_load_yields_no_table() {
    let loaded = KeyMapper::from_entries(&entries(&[("1", "A"), ("13", "B")]));
    assert!(loaded.is_err());
    let error = loaded.unwrap_err();
    assert_eq!(error.kind, ErrorKind::InvalidSlot);
    assert_eq!(error.message(), "Invalid key number: 13");
}

#[test]
fn order_of_entries_for_different_slots_is_irrelevant() {
    let forward = load(&[("1", "A"), ("2", "B"), ("12", "KP::Plus")]);
    let backward = load(&[("12", "KP::Plus"), ("2", "B"), ("1", "A")]);
    let mixed = load(&[("2", "B"), ("12", "KP::Plus"), ("1", "A")]);
    assert!(forward.is_ok());
    assert_eq!(forward, backward);
    assert_eq!(forward, mixed);
}

#[test]
fn order_of_entries_for_one_slot_decides() {
    assert_ne!(load(&[("1", "A"), ("01", "B")]), load(&[("01", "B"), ("1", "A")]));
}
