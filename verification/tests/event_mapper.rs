use naga_remap::error::ErrorKind;
use naga_remap::event_mapper::{
    map_events, next_action, process_event, Action, Outcome, OutputCall, RawEvent, PRESSED,
    RELEASED,
};
use naga_remap::input::Input;
use naga_remap::key_map::KeyMapper;
use uinput::event::keyboard::{Key, KeyPad};

fn key(code: u16, value: i32) -> RawEvent {
    RawEvent::Key { code, value }
}

#[test]
fn press_release_sync_come_out_in_order() {
    let calls = map_events(KeyMapper::default(), &[key(2, 1), key(2, 0), RawEvent::Sync]);
    assert_eq!(
        calls,
        vec![
            OutputCall::Press(Input::from(Key::_1)),
            OutputCall::Release(Input::from(Key::_1)),
            OutputCall::Synchronize,
        ]
    );
}

#[test]
fn code_two_is_the_first_slot() {
    let mapper = KeyMapper::default();
    assert_eq!(process_event(&mapper, key(2, 1)), Some(OutputCall::Press(Input::from(Key::_1))));
    assert_eq!(process_event(&mapper, key(2, 0)), Some(OutputCall::Release(Input::from(Key::_1))));
}

#[test]
fn code_thirteen_is_the_last_slot() {
    let mapper = KeyMapper::default();
    assert_eq!(
        process_event(&mapper, key(13, 1)),
        Some(OutputCall::Press(Input::from(Key::Equal)))
    );
    assert_eq!(
        process_event(&mapper, key(13, 0)),
        Some(OutputCall::Release(Input::from(Key::Equal)))
    );
}

#[test]
fn every_button_sends_the_key_of_its_slot() {
    let defaults = [Key::_1, Key::_2, Key::_3, Key::_4, Key::_5, Key::_6, Key::_7, Key::_8,
        Key::_9, Key::_0, Key::Minus, Key::Equal];
    let mapper = KeyMapper::default();
    for slot in 1..=12u16 {
        let expected = Input::from(defaults[slot as usize - 1]);
        assert_eq!(process_event(&mapper, key(slot + 1, 1)), Some(OutputCall::Press(expected)));
        assert_eq!(process_event(&mapper, key(slot + 1, 0)), Some(OutputCall::Release(expected)));
    }
}

#[test]
fn press_and_release_values() {
    assert_eq!(PRESSED, 1);
    assert_eq!(RELEASED, 0);
    let mapper = KeyMapper::default();
    assert_eq!(process_event(&mapper, key(12, 1)), Some(OutputCall::Press(Input::from(Key::Minus))));
    assert_eq!(
        process_event(&mapper, key(12, 0)),
        Some(OutputCall::Release(Input::from(Key::Minus)))
    );
}

#[test]
fn repeat_of_a_mapped_key_sends_nothing() {
    let mapper = KeyMapper::default();
    for code in 2..=13u16 {
        for value in [2, 3, -1, 100, i32::MAX, i32::MIN] {
            assert_eq!(process_event(&mapper, key(code, value)), None);
        }
    }
}

#[test]
fn repeat_is_dropped_but_sync_passes() {
    let calls = map_events(
        KeyMapper::default(),
        &[key(6, 1), RawEvent::Sync, key(6, 2), RawEvent::Sync, key(6, 2), RawEvent::Sync,
            key(6, 0), RawEvent::Sync],
    );
    assert_eq!(
        calls,
        vec![
            OutputCall::Press(Input::from(Key::_5)),
            OutputCall::Synchronize,
            OutputCall::Synchronize,
            OutputCall::Synchronize,
            OutputCall::Release(Input::from(Key::_5)),
            OutputCall::Synchronize,
        ]
    );
}

#[test]
fn untracked_code_sends_nothing() {
    let mapper = KeyMapper::default();
    for code in [0u16, 1, 14, 15, 28, 30, 272, 273, 0x2ff, u16::MAX] {
        for value in [0, 1, 2] {
            assert_eq!(process_event(&mapper, key(code, value)), None);
        }
    }
    assert_eq!(map_events(mapper, &[key(272, 1), key(272, 0)]), vec![]);
    assert_eq!(map_events(mapper, &[key(1, 1), key(1, 0), key(14, 1), key(14, 0)]), vec![]);
}

#[test]
fn sync_is_always_passed_on() {
    assert_eq!(process_event(&KeyMapper::default(), RawEvent::Sync), Some(OutputCall::Synchronize));
}

#[test]
fn other_events_send_nothing() {
    assert_eq!(process_event(&KeyMapper::default(), RawEvent::Other), None);
    assert_eq!(
        map_events(KeyMapper::default(), &[RawEvent::Other, RawEvent::Other, RawEvent::Sync]),
        vec![OutputCall::Synchronize]
    );
}

#[test]
fn no_events_no_calls() {
    assert_eq!(map_events(KeyMapper::default(), &[]), vec![]);
}

#[test]
fn configured_key_is_the_one_sent() {
    let entries = vec![("2".to_string(), "KP::Enter".to_string())];
    let mapper = KeyMapper::from_entries(&entries).unwrap();
    assert_eq!(
        map_events(mapper, &[key(3, 1), key(2, 1), RawEvent::Sync, key(3, 0), key(2, 0)]),
        vec![
            OutputCall::Press(Input::from(KeyPad::Enter)),
            OutputCall::Press(Input::from(Key::_1)),
            OutputCall::Synchronize,
            OutputCall::Release(Input::from(KeyPad::Enter)),
            OutputCall::Release(Input::from(Key::_1)),
        ]
    );
}

#[test]
fn slot_set_directly_is_the_one_sent() {
    let mut mapper = KeyMapper::default();
    assert!(mapper.set(12, Input::from(Key::F24)));
    assert_eq!(
        map_events(mapper, &[key(13, 1), key(13, 0)]),
        vec![
            OutputCall::Press(Input::from(Key::F24)),
            OutputCall::Release(Input::from(Key::F24)),
        ]
    );
}

#[test]
fn calls_of_two_runs_are_the_calls_of_the_joined_run() {
    let first = [key(2, 1), RawEvent::Other, key(40, 1), RawEvent::Sync];
    let second = [key(2, 2), key(2, 0), RawEvent::Sync];
    let mapper = KeyMapper::default();
    let mut joined = first.to_vec();
    joined.extend_from_slice(&second);
    let mut expected = map_events(mapper, &first);
    expected.extend(map_events(mapper, &second));
    assert_eq!(expected.len(), 4);
    assert_eq!(map_events(mapper, &joined), expected);
}

#[test]
fn loop_reads_after_an_event_without_call() {
    let mapper = KeyMapper::default();
    assert_eq!(next_action(&mapper, Outcome::EventRead(RawEvent::Other)), Action::ReadEvent);
    assert_eq!(next_action(&mapper, Outcome::EventRead(key(2, 2))), Action::ReadEvent);
    assert_eq!(next_action(&mapper, Outcome::EventRead(key(1, 1))), Action::ReadEvent);
    assert_eq!(next_action(&mapper, Outcome::EventRead(key(99, 1))), Action::ReadEvent);
}

#[test]
fn loop_calls_after_an_event_with_call() {
    let mapper = KeyMapper::default();
    assert_eq!(
        next_action(&mapper, Outcome::EventRead(key(3, 1))),
        Action::Call(OutputCall::Press(Input::from(Key::_2)))
    );
    assert_eq!(
        next_action(&mapper, Outcome::EventRead(RawEvent::Sync)),
        Action::Call(OutputCall::Synchronize)
    );
}

#[test]
fn loop_reads_after_a_call() {
    assert_eq!(next_action(&KeyMapper::default(), Outcome::CallDone), Action::ReadEvent);
}

#[test]
fn loop_stops_on_read_failure() {
    let action = next_action(&KeyMapper::default(), Outcome::ReadFailed("ENODEV".to_string()));
    match action {
        Action::Stop(error) => {
            assert_eq!(error.kind, ErrorKind::EventRead);
            assert_eq!(error.detail, "ENODEV");
            assert_eq!(error.message(), "Event read error: ENODEV");
        }
        other => panic!("{:?}", other),
    }
}

#[test]
fn loop_stops_on_write_failure() {
    let action = next_action(&KeyMapper::default(), Outcome::CallFailed("EIO".to_string()));
    match action {
        Action::Stop(error) => {
            assert_eq!(error.kind, ErrorKind::OutputWrite);
            assert_eq!(error.detail, "EIO");
            assert_eq!(error.message(), "Process event error: EIO");
        }
        other => panic!("{:?}", other),
    }
}

#[test]
fn events_then_read_failure_make_the_calls_and_stop() {
    let mapper = KeyMapper::default();
    let heard = [
        Outcome::EventRead(key(2, 1)),
        Outcome::CallDone,
        Outcome::EventRead(key(2, 0)),
        Outcome::CallDone,
        Outcome::EventRead(RawEvent::Sync),
        Outcome::CallDone,
        Outcome::ReadFailed("ENODEV".to_string()),
    ];
    let mut calls = Vec::new();
    let mut stopped = None;
    for outcome in heard {
        match next_action(&mapper, outcome) {
            Action::Call(call) => calls.push(call),
            Action::ReadEvent => {}
            Action::Stop(error) => stopped = Some(error.kind),
        }
    }
    assert_eq!(
        calls,
        vec![
            OutputCall::Press(Input::from(Key::_1)),
            OutputCall::Release(Input::from(Key::_1)),
            OutputCall::Synchronize,
        ]
    );
    assert_eq!(stopped, Some(ErrorKind::EventRead));
}
