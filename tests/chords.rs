use chords::key::{Code, Press};
use chords::playback::{releases_to_start, settle, KeyEvent, PlaybackError, Release};
use chords::{Chord, VirtualKey};

fn down(code: Code) -> KeyEvent {
    KeyEvent { code, key_up: false }
}

fn up(code: Code) -> KeyEvent {
    KeyEvent { code, key_up: true }
}

#[test]
fn keypress_from_utf16() {
    let expected = Press::new(Code::UnicodeKey(0x0061), None);
    let unicode_a = "a".encode_utf16().next().unwrap();

    let actual = Press::from(unicode_a);

    assert_eq!(actual, expected);
}

#[test]
fn press_from_virtual_key() {
    assert_eq!(Press::from(VirtualKey::Enter), Press::new(Code::VirtualKey(0x0D), None));
    assert_eq!(VirtualKey::F1.code(), 0x70);
    assert_eq!(VirtualKey::OemClear.code(), 0xFE);
}

#[test]
fn ms_constructors_set_hold() {
    assert_eq!(Press::new_unicode_ms(0x41u16, 20), Press::new(Code::UnicodeKey(0x41), Some(20)));
    assert_eq!(Press::new_virtual_ms(0x0Du16, 5), Press::new(Code::VirtualKey(0x0D), Some(5)));
}

#[test]
fn empty_chord_sends_nothing() {
    let plan = Chord::new().plan();
    assert!(plan.immediate.is_empty());
    assert!(plan.deferred.is_empty());
    assert_eq!(settle(true, &plan.deferred, &vec![]), Ok(()));
}

#[test]
fn single_press_is_down_then_up() {
    let mut chord = Chord::new();
    chord.push(Press::new_unicode(0x61, None));
    let plan = chord.plan();
    let a = Code::UnicodeKey(0x61);
    assert_eq!(plan.immediate, vec![down(a), up(a)]);
    assert!(plan.deferred.is_empty());
}

#[test]
fn repeated_key_gets_interposed_release() {
    let chord = Chord::from_utf16(&[0x61, 0x61]);
    let plan = chord.plan();
    let a = Code::UnicodeKey(0x61);
    assert_eq!(plan.immediate, vec![down(a), up(a), up(a), down(a), up(a)]);
    assert!(plan.deferred.is_empty());
}

#[test]
fn same_code_of_other_kind_is_no_collision() {
    let mut chord = Chord::from_utf16(&[0x0D]);
    chord.push_vk(VirtualKey::Enter);
    let plan = chord.plan();
    let u = Code::UnicodeKey(0x0D);
    let v = Code::VirtualKey(0x0D);
    assert_eq!(plan.immediate, vec![down(u), up(u), down(v), up(v)]);
}

#[test]
fn held_press_before_same_key_is_not_released_early() {
    let mut chord = Chord::new();
    chord.push(Press::new_unicode_ms(0x61u16, 30));
    chord.push(Press::new_unicode(0x61u16, None));
    let plan = chord.plan();
    let a = Code::UnicodeKey(0x61);
    assert_eq!(plan.immediate, vec![down(a), down(a), up(a)]);
    assert_eq!(plan.deferred, vec![Release { event: up(a), hold: 30 }]);
}

#[test]
fn held_press_releases_later() {
    let mut chord = Chord::new();
    chord.push(Press::new_virtual_ms(0x10u16, 50));
    let plan = chord.plan();
    let shift = Code::VirtualKey(0x10);
    assert_eq!(plan.immediate, vec![down(shift)]);
    assert_eq!(plan.deferred, vec![Release { event: up(shift), hold: 50 }]);
}

#[test]
fn two_holds_each_get_their_own_release() {
    let mut chord = Chord::new();
    chord.push(Press::new_unicode_ms(0x62u16, 50));
    chord.push(Press::new_unicode_ms(0x61u16, 10));
    let plan = chord.plan();
    let a = Code::UnicodeKey(0x61);
    let b = Code::UnicodeKey(0x62);
    assert_eq!(plan.immediate, vec![down(b), down(a)]);
    assert_eq!(
        plan.deferred,
        vec![Release { event: up(b), hold: 50 }, Release { event: up(a), hold: 10 }]
    );
}

#[test]
fn batch_length_counts_downs_ups_and_collisions() {
    let mut chord = Chord::from_utf16(&[0x61, 0x61, 0x62]);
    chord.push(Press::new_unicode_ms(0x62u16, 15));
    let plan = chord.plan();
    // 4 downs, 3 releases of unheld presses, 2 collisions
    assert_eq!(plan.immediate.len(), 9);
    assert_eq!(plan.deferred.len(), 1);
}

#[test]
fn failed_batch_starts_no_release() {
    let mut chord = Chord::new();
    chord.push(Press::new_unicode_ms(0x61u16, 50));
    let plan = chord.plan();
    assert!(releases_to_start(&plan, false).is_empty());
    assert_eq!(releases_to_start(&plan, true), plan.deferred);
    assert_eq!(settle(false, &plan.deferred, &vec![]), Err(PlaybackError::ImmediateFailed));
}

#[test]
fn failed_releases_are_reported() {
    let mut chord = Chord::new();
    chord.push(Press::new_unicode_ms(0x61u16, 10));
    chord.push(Press::new_unicode_ms(0x62u16, 20));
    chord.push(Press::new_unicode_ms(0x63u16, 30));
    let plan = chord.plan();
    let jobs = releases_to_start(&plan, true);
    assert_eq!(settle(true, &jobs, &vec![true, true, true]), Ok(()));
    assert_eq!(
        settle(true, &jobs, &vec![false, true, false]),
        Err(PlaybackError::ReleasesFailed(vec![Code::UnicodeKey(0x61), Code::UnicodeKey(0x63)]))
    );
}

#[test]
fn text_then_enter() {
    let units: Vec<u16> = "Hi".encode_utf16().collect();
    let mut chord = Chord::from_utf16(&units);
    chord.push_vk(VirtualKey::Enter);
    assert_eq!(chord.keys.len(), 3);
    assert_eq!(chord.keys[0], Press::new(Code::UnicodeKey(0x48), None));
    assert_eq!(chord.keys[1], Press::new(Code::UnicodeKey(0x69), None));
    assert_eq!(chord.keys[2], Press::new(Code::VirtualKey(0x0D), None));
}

#[test]
fn default_hold_applies_to_every_press() {
    let chord = Chord::from_utf16_held(&[0x61, 0x62], Some(25));
    assert_eq!(chord.keys[0], Press::new(Code::UnicodeKey(0x61), Some(25)));
    assert_eq!(chord.keys[1], Press::new(Code::UnicodeKey(0x62), Some(25)));
}
