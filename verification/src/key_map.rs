//! The table from the twelve buttons to the keys they send, and how a
//! configuration changes it.
//!
//! The buttons report the key codes of a keyboard's number row: 2 for the
//! first button, and so on up to 13 for the twelfth. The table has one slot
//! for each button, in that order.
//!
//! A configuration is a list of entries, each a slot number and a key name,
//! both as text. Slots are counted from 1 in a configuration and from 0 in
//! the table. Loading starts from the default table and applies the entries
//! in order, so of two entries for one slot the later one stays.

use crate::error::{ErrorKind, Failure, RemapError};
use crate::input::{
    input_name, input_named, lemma_key_found_by_name, Input, InputKey,
};
use crate::text::{decimal_value, parse_decimal};
use uinput::event::keyboard::Key;
use vstd::prelude::*;

verus! {

/// The number of buttons that are mapped.
pub const SLOTS: usize = 12;

/// The key code that the first button reports. The buttons report
/// consecutive codes from here on, one for each slot.
pub const FIRST_CODE: u16 = 2;

/// The entries of a configuration as contracts see them: slot text and key
/// name, each by its characters.
pub type Entries = Seq<(Seq<char>, Seq<char>)>;

/// The table that applies where nothing is configured: the number row of a
/// keyboard, `1` to `9`, `0`, minus and equal.
pub open spec fn default_keys() -> Seq<Input> {
    seq![
        Input::InputKey(InputKey(Key::_1)),
        Input::InputKey(InputKey(Key::_2)),
        Input::InputKey(InputKey(Key::_3)),
        Input::InputKey(InputKey(Key::_4)),
        Input::InputKey(InputKey(Key::_5)),
        Input::InputKey(InputKey(Key::_6)),
        Input::InputKey(InputKey(Key::_7)),
        Input::InputKey(InputKey(Key::_8)),
        Input::InputKey(InputKey(Key::_9)),
        Input::InputKey(InputKey(Key::_0)),
        Input::InputKey(InputKey(Key::Minus)),
        Input::InputKey(InputKey(Key::Equal)),
    ]
}

/// The key that the table holds for a physical key code. The first button's
/// code belongs to the first slot, the next code to the next slot; codes
/// below the first button's and past the last button's have no key.
pub open spec fn lookup(keys: Seq<Input>, code: int) -> Option<Input> {
    if FIRST_CODE <= code < keys.len() + FIRST_CODE {
        Some(keys[code - FIRST_CODE])
    } else {
        None
    }
}

/// The characters of each entry.
pub open spec fn entry_texts(entries: Seq<(String, String)>) -> Entries {
    Seq::new(entries.len(), |i: int| (entries[i].0@, entries[i].1@))
}

/// The first key name among the entries that is not an accepted name.
pub open spec fn unknown_name(entries: Entries) -> Option<Seq<char>>
    decreases entries.len(),
{
    if entries.len() == 0 {
        None
    } else if input_named(entries[0].1) is None {
        Some(entries[0].1)
    } else {
        unknown_name(entries.skip(1))
    }
}

/// The table that results from applying the entries to `keys` in order, or
/// the failure of the first entry that cannot be applied: its slot is not
/// written as a number, or lies outside 1 to 12, or its key name is unknown.
pub open spec fn apply_overrides(keys: Seq<Input>, entries: Entries) -> Result<Seq<Input>, Failure>
    decreases entries.len(),
{
    if entries.len() == 0 {
        Ok(keys)
    } else {
        let (slot, name) = entries[0];
        match (decimal_value(slot), input_named(name)) {
            (None, _) => Err(Failure { kind: ErrorKind::ConfigParse, detail: slot }),
            (Some(n), None) => if 1 <= n <= SLOTS {
                Err(Failure { kind: ErrorKind::InvalidKeyName, detail: name })
            } else {
                Err(Failure { kind: ErrorKind::InvalidSlot, detail: slot })
            },
            (Some(n), Some(key)) => if 1 <= n <= SLOTS {
                apply_overrides(keys.update(n - 1, key), entries.skip(1))
            } else {
                Err(Failure { kind: ErrorKind::InvalidSlot, detail: slot })
            },
        }
    }
}

/// What loading a configuration gives. An unknown key name anywhere among the
/// entries fails the whole configuration before any slot is looked at;
/// otherwise the entries are applied to the default table in order.
pub open spec fn load(entries: Entries) -> Result<Seq<Input>, Failure> {
    match unknown_name(entries) {
        Some(name) => Err(Failure { kind: ErrorKind::InvalidKeyName, detail: name }),
        None => apply_overrides(default_keys(), entries),
    }
}

/// The position of the last entry whose slot text writes the number `slot`.
pub open spec fn last_entry_for(entries: Entries, slot: int) -> Option<int>
    decreases entries.len(),
{
    if entries.len() == 0 {
        None
    } else if decimal_value(entries.last().0) matches Some(n) && n == slot {
        Some(entries.len() - 1)
    } else {
        last_entry_for(entries.drop_last(), slot)
    }
}

/// The key named by the last entry for a slot, if there is an entry for it.
pub open spec fn last_key_for(entries: Entries, slot: int) -> Option<Input> {
    match last_entry_for(entries, slot) {
        Some(i) => input_named(entries[i].1),
        None => None,
    }
}

/// Twelve slots, each holding the key that its button sends.
#[derive(Copy, Clone, Debug, PartialEq, Eq)]
pub struct KeyMapper {
    pub keys: [Input; 12],
}

impl View for KeyMapper {
    type V = Seq<Input>;

    open spec fn view(&self) -> Seq<Input> {
        self.keys@
    }
}

impl Default for KeyMapper {
    /// The default table.
    fn default() -> (mapper: KeyMapper)
        ensures
            mapper@ == default_keys(),
    {
        let mapper = KeyMapper {
            keys: [
                Input::InputKey(InputKey(Key::_1)),
                Input::InputKey(InputKey(Key::_2)),
                Input::InputKey(InputKey(Key::_3)),
                Input::InputKey(InputKey(Key::_4)),
                Input::InputKey(InputKey(Key::_5)),
                Input::InputKey(InputKey(Key::_6)),
                Input::InputKey(InputKey(Key::_7)),
                Input::InputKey(InputKey(Key::_8)),
                Input::InputKey(InputKey(Key::_9)),
                Input::InputKey(InputKey(Key::_0)),
                Input::InputKey(InputKey(Key::Minus)),
                Input::InputKey(InputKey(Key::Equal)),
            ],
        };
        mapper
    }
}

impl KeyMapper {
    /// The key mapped to a physical key code: for the codes 2 to 13 the key
    /// of slot 1 to 12, and `None` for every other code.
    pub fn get(&self, code: u16) -> (key: Option<Input>)
        ensures
            self@.len() == SLOTS,
            key == lookup(self@, code as int),
            key is Some <==> FIRST_CODE <= code < SLOTS + FIRST_CODE,
    {
        if code >= FIRST_CODE && ((code - FIRST_CODE) as usize) < SLOTS {
            Some(self.keys[(code - FIRST_CODE) as usize])
        } else {
            None
        }
    }

    /// Maps the slot with the given number, counted from 1, to `key`, so
    /// that the button with code `slot + 1` sends it. Returns whether there
    /// is such a slot; if not, nothing changes.
    pub fn set(&mut self, slot: usize, key: Input) -> (done: bool)
        ensures
            done == (1 <= slot <= SLOTS),
            done ==> final(self)@ == old(self)@.update(slot - 1, key),
            done ==> lookup(final(self)@, slot + 1) == Some(key),
            !done ==> *final(self) == *old(self),
    {
        if 1 <= slot && slot <= SLOTS {
            self.keys[slot - 1] = key;
            true
        } else {
            false
        }
    }

    /// Loads a configuration: the default table with the given entries
    /// applied. Fails, and yields no table at all, on the first unknown key
    /// name, and else on the first slot that is not a number from 1 to 12.
    pub fn from_entries(entries: &Vec<(String, String)>) -> (loaded: Result<KeyMapper, RemapError>)
        ensures
            match load(entry_texts(entries@)) {
                Ok(keys) => loaded matches Ok(mapper) && mapper@ == keys,
                Err(failure) => loaded matches Err(error) && error@ == failure,
            },
    {
        let ghost texts = entry_texts(entries@);
        let mut named: Vec<Input> = Vec::new();
        let mut i: usize = 0;
        assert(texts.skip(0) == texts);
        while i < entries.len()
            invariant
                i <= entries.len(),
                texts == entry_texts(entries@),
                unknown_name(texts.skip(i as int)) == unknown_name(texts),
                named.len() == i,
                forall|j: int| 0 <= j < i ==> input_named(texts[j].1) == Some(#[trigger] named[j]),
            decreases entries.len() - i,
        {
            assert(texts.skip(i as int).skip(1) == texts.skip(i + 1));
            assert(texts.skip(i as int)[0] == texts[i as int]);
            let name = entries[i].1.as_str();
            match Input::from_name(name) {
                Some(key) => {
                    named.push(key);
                },
                None => {
                    return Err(RemapError::with_detail(ErrorKind::InvalidKeyName, name));
                },
            }
            i += 1;
        }
        let mut mapper = KeyMapper::default();
        let mut i: usize = 0;
        while i < entries.len()
            invariant
                i <= entries.len(),
                texts == entry_texts(entries@),
                named.len() == entries.len(),
                unknown_name(texts) is None,
                forall|j: int|
                    0 <= j < named.len() ==> input_named(texts[j].1) == Some(#[trigger] named[j]),
                mapper@.len() == SLOTS,
                apply_overrides(mapper@, texts.skip(i as int)) == apply_overrides(
                    default_keys(),
                    texts,
                ),
            decreases entries.len() - i,
        {
            assert(texts.skip(i as int).skip(1) == texts.skip(i + 1));
            assert(texts.skip(i as int)[0] == texts[i as int]);
            let slot = entries[i].0.as_str();
            match parse_decimal(slot) {
                Some(number) => {
                    if !mapper.set(number, named[i]) {
                        return Err(RemapError::with_detail(ErrorKind::InvalidSlot, slot));
                    }
                },
                None => {
                    return Err(RemapError::with_detail(ErrorKind::ConfigParse, slot));
                },
            }
            i += 1;
        }
        Ok(mapper)
    }
}

/// Where every key name is known, no name is reported as unknown.
proof fn lemma_all_names_known(entries: Entries)
    requires
        forall|j: int| 0 <= j < entries.len() ==> input_named(#[trigger] entries[j].1) is Some,
    ensures
        unknown_name(entries) is None,
    decreases entries.len(),
{
    if entries.len() > 0 {
        let rest = entries.skip(1);
        assert forall|j: int| 0 <= j < rest.len() implies input_named(
            #[trigger] rest[j].1,
        ) is Some by {
            assert(rest[j] == entries[j + 1]);
        }
        lemma_all_names_known(rest);
    }
}

/// Where some key name is not accepted, one is reported as unknown.
proof fn lemma_some_name_unknown(entries: Entries, i: int)
    requires
        0 <= i < entries.len(),
        input_named(entries[i].1) is None,
    ensures
        unknown_name(entries) is Some,
    decreases entries.len(),
{
    if i > 0 && input_named(entries[0].1) is Some {
        lemma_some_name_unknown(entries.skip(1), i - 1);
    }
}

/// A key name that is not accepted fails the configuration with
/// `InvalidKeyName`, wherever it stands and whatever the other entries say.
pub proof fn lemma_unknown_name_rejected(entries: Entries, i: int)
    requires
        0 <= i < entries.len(),
        input_named(entries[i].1) is None,
    ensures
        load(entries) matches Err(failure) && failure.kind == ErrorKind::InvalidKeyName,
{
    lemma_some_name_unknown(entries, i);
}

/// Applying entries fails with `InvalidSlot` where an entry's slot number
/// lies outside 1 to 12 and the slots before it are all written as numbers.
proof fn lemma_apply_rejects_slot(keys: Seq<Input>, entries: Entries, i: int)
    requires
        0 <= i < entries.len(),
        forall|j: int| 0 <= j < entries.len() ==> input_named(#[trigger] entries[j].1) is Some,
        forall|j: int| 0 <= j < i ==> decimal_value(#[trigger] entries[j].0) is Some,
        decimal_value(entries[i].0) matches Some(n) && !(1 <= n <= SLOTS),
    ensures
        apply_overrides(keys, entries) matches Err(failure) && failure.kind
            == ErrorKind::InvalidSlot,
    decreases entries.len(),
{
    if i > 0 {
        let n = decimal_value(entries[0].0)->0;
        if 1 <= n <= SLOTS {
            let rest = entries.skip(1);
            assert forall|j: int| 0 <= j < rest.len() implies input_named(
                #[trigger] rest[j].1,
            ) is Some by {
                assert(rest[j] == entries[j + 1]);
            }
            assert forall|j: int| 0 <= j < i - 1 implies decimal_value(
                #[trigger] rest[j].0,
            ) is Some by {
                assert(rest[j] == entries[j + 1]);
            }
            lemma_apply_rejects_slot(
                keys.update(n - 1, input_named(entries[0].1)->0),
                rest,
                i - 1,
            );
        }
    }
}

/// A slot number outside 1 to 12 fails the configuration with `InvalidSlot`,
/// provided that every key name is known and the slots of the entries before
/// it are written as numbers. No table results.
pub proof fn lemma_slot_out_of_range_rejected(entries: Entries, i: int)
    requires
        0 <= i < entries.len(),
        forall|j: int| 0 <= j < entries.len() ==> input_named(#[trigger] entries[j].1) is Some,
        forall|j: int| 0 <= j < i ==> decimal_value(#[trigger] entries[j].0) is Some,
        decimal_value(entries[i].0) matches Some(n) && !(1 <= n <= SLOTS),
    ensures
        load(entries) matches Err(failure) && failure.kind == ErrorKind::InvalidSlot,
{
    lemma_all_names_known(entries);
    lemma_apply_rejects_slot(default_keys(), entries, i);
}

/// A configuration of one entry, with a slot from 1 to 12 and a known key
/// name, changes that slot to the named key and leaves the other eleven at
/// their defaults. The button of that slot then sends the named key.
pub proof fn lemma_single_override(slot: Seq<char>, name: Seq<char>)
    requires
        decimal_value(slot) matches Some(n) && 1 <= n <= SLOTS,
        input_named(name) is Some,
    ensures
        load(seq![(slot, name)]) matches Ok(keys) && {
            &&& keys.len() == SLOTS
            &&& keys[decimal_value(slot)->0 - 1] == input_named(name)->0
            &&& lookup(keys, decimal_value(slot)->0 + 1) == input_named(name)
            &&& forall|j: int|
                0 <= j < SLOTS && j != decimal_value(slot)->0 - 1 ==> keys[j] == default_keys()[j]
        },
{
    let entries = seq![(slot, name)];
    let changed = default_keys().update(decimal_value(slot)->0 - 1, input_named(name)->0);
    assert(unknown_name(entries.skip(1)) is None);
    assert(apply_overrides(changed, entries.skip(1)) == Ok::<Seq<Input>, Failure>(changed));
}

/// Overriding a slot with the key it has by default changes nothing: loading
/// gives the default table again.
pub proof fn lemma_default_override_is_identity(slot: Seq<char>)
    requires
        decimal_value(slot) matches Some(n) && 1 <= n <= SLOTS,
    ensures
        load(seq![(slot, input_name(default_keys()[decimal_value(slot)->0 - 1]))]) == Ok::<
            Seq<Input>,
            Failure,
        >(default_keys()),
{
    let key = default_keys()[decimal_value(slot)->0 - 1];
    let name = input_name(key);
    match key {
        Input::InputKey(standard) => lemma_key_found_by_name(standard.0),
        Input::InputKeyPad(_) => {},
    }
    lemma_single_override(slot, name);
    assert(load(seq![(slot, name)])->Ok_0 =~= default_keys());
}

/// The last entry for a slot is one of the entries, it is for that slot, and
/// no later entry is.
pub proof fn lemma_last_entry_in_range(entries: Entries, slot: int)
    ensures
        last_entry_for(entries, slot) matches Some(i) ==> {
            &&& 0 <= i < entries.len()
            &&& decimal_value(entries[i].0) matches Some(n) && n == slot
            &&& forall|j: int|
                i < j < entries.len() ==> !(decimal_value(#[trigger] entries[j].0) matches Some(n)
                    && n == slot)
        },
        last_entry_for(entries, slot) is None ==> forall|j: int|
            0 <= j < entries.len() ==> !(decimal_value(#[trigger] entries[j].0) matches Some(n)
                && n == slot),
    decreases entries.len(),
{
    if entries.len() > 0 {
        lemma_last_entry_in_range(entries.drop_last(), slot);
        assert forall|j: int| 0 <= j < entries.len() - 1 implies entries.drop_last()[j]
            == entries[j] by {}
    }
}

/// Putting an entry in front moves the last entry for a slot one place on,
/// and makes the new entry the last one only if no other is for that slot.
proof fn lemma_last_entry_front(entries: Entries, slot: int)
    requires
        entries.len() > 0,
    ensures
        last_entry_for(entries, slot) == match last_entry_for(entries.skip(1), slot) {
            Some(i) => Some(i + 1),
            None => if decimal_value(entries[0].0) matches Some(n) && n == slot {
                Some(0int)
            } else {
                None
            },
        },
    decreases entries.len(),
{
    if entries.len() == 1 {
        assert(entries.skip(1).len() == 0);
        assert(entries.drop_last().len() == 0);
    } else {
        assert(entries.skip(1).last() == entries.last());
        assert(entries.skip(1).drop_last() == entries.drop_last().skip(1));
        lemma_last_entry_front(entries.drop_last(), slot);
    }
}

/// After the entries have been applied, a slot holds the key of the last
/// entry for it, and the key it had before where no entry is for it.
proof fn lemma_applied_slot(keys: Seq<Input>, entries: Entries, slot: int)
    requires
        keys.len() == SLOTS,
        1 <= slot <= SLOTS,
        apply_overrides(keys, entries) is Ok,
    ensures
        apply_overrides(keys, entries)->Ok_0.len() == SLOTS,
        apply_overrides(keys, entries)->Ok_0[slot - 1] == match last_entry_for(entries, slot) {
            Some(i) => input_named(entries[i].1)->0,
            None => keys[slot - 1],
        },
    decreases entries.len(),
{
    if entries.len() > 0 {
        let n = decimal_value(entries[0].0)->0;
        let key = input_named(entries[0].1)->0;
        let rest = entries.skip(1);
        lemma_last_entry_front(entries, slot);
        lemma_last_entry_in_range(rest, slot);
        lemma_applied_slot(keys.update(n - 1, key), rest, slot);
    }
}

/// In a loaded table every slot holds the key named by the last entry for
/// that slot, and its default key where no entry is for it.
pub proof fn lemma_last_entry_wins(entries: Entries, slot: int)
    requires
        1 <= slot <= SLOTS,
        load(entries) is Ok,
    ensures
        load(entries)->Ok_0.len() == SLOTS,
        load(entries)->Ok_0[slot - 1] == match last_entry_for(entries, slot) {
            Some(i) => input_named(entries[i].1)->0,
            None => default_keys()[slot - 1],
        },
{
    lemma_applied_slot(default_keys(), entries, slot);
}

/// A loaded table depends on nothing but the last entry for each slot. Two
/// configurations that load, and whose last entries for every slot name the
/// same key, give the same table, in whatever order their entries stand.
pub proof fn lemma_only_last_entries_count(a: Entries, b: Entries)
    requires
        load(a) is Ok,
        load(b) is Ok,
        forall|slot: int|
            1 <= slot <= SLOTS ==> #[trigger] last_key_for(a, slot) == last_key_for(b, slot),
    ensures
        load(a) == load(b),
{
    let left = load(a)->Ok_0;
    let right = load(b)->Ok_0;
    assert forall|j: int| 0 <= j < SLOTS implies left[j] == right[j] by {
        let slot = j + 1;
        lemma_last_entry_wins(a, slot);
        lemma_last_entry_wins(b, slot);
        lemma_last_entry_in_range(a, slot);
        lemma_last_entry_in_range(b, slot);
        assert(last_key_for(a, slot) == last_key_for(b, slot));
        if last_entry_for(a, slot) matches Some(i) && input_named(a[i].1) is None {
            lemma_unknown_name_rejected(a, last_entry_for(a, slot)->0);
        }
        if last_entry_for(b, slot) matches Some(i) && input_named(b[i].1) is None {
            lemma_unknown_name_rejected(b, last_entry_for(b, slot)->0);
        }
    }
    lemma_last_entry_wins(a, 1);
    lemma_last_entry_wins(b, 1);
    assert(left =~= right);
}

} // verus!
