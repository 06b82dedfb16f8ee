//! The keyboard report writer: folds key events into a six-slot boot keyboard report.

use vstd::prelude::*;

use crate::keys::KeyboardInput;

verus! {

/// A key that went down or came up.
#[derive(Clone, Copy, Debug, PartialEq, Eq, Structural)]
pub enum KeyboardEvent {
    Pressed(KeyboardInput),
    Released(KeyboardInput),
}
/// A boot-protocol keyboard report: up to six held keys by usage code, zero for an empty slot.
#[derive(Clone, Copy, Debug)]
pub struct KeyboardReport {
    pub keycodes: [u8; 6],
    pub modifier: u8,
    pub leds: u8,
    pub reserved: u8,
}

impl KeyboardReport {
    /// A report with no key held.
    pub fn new() -> (r: KeyboardReport)
        ensures
            r.keycodes@ == seq![0u8, 0u8, 0u8, 0u8, 0u8, 0u8],
            r.modifier == 0,
            r.leds == 0,
            r.reserved == 0,
    {
        KeyboardReport { keycodes: [0, 0, 0, 0, 0, 0], modifier: 0, leds: 0, reserved: 0 }
    }
}

/// The index of the first empty slot, if any.
pub open spec fn first_empty(codes: Seq<u8>) -> Option<int>
    decreases codes.len(),
{
    if codes.len() == 0 {
        None
    } else if codes[0] == 0 {
        Some(0)
    } else {
        match first_empty(codes.drop_first()) {
            Some(i) => Some(i + 1),
            None => None,
        }
    }
}

/// Pressing a key: nothing changes if it is already held; otherwise it takes the first empty
/// slot, and with no empty slot it is dropped.
pub open spec fn spec_set_key(codes: Seq<u8>, keycode: u8) -> Seq<u8> {
    if codes.contains(keycode) {
        codes
    } else {
        match first_empty(codes) {
            Some(i) => codes.update(i, keycode),
            None => codes,
        }
    }
}

/// Releasing a key empties every slot that holds it.
pub open spec fn spec_clear_key(codes: Seq<u8>, keycode: u8) -> Seq<u8> {
    codes.map_values(|c: u8| if c == keycode { 0u8 } else { c })
}

proof fn lemma_first_empty(codes: Seq<u8>)
    ensures
        match first_empty(codes) {
            Some(i) => 0 <= i < codes.len() && codes[i] == 0 && forall|j: int|
                0 <= j < i ==> codes[j] != 0,
            None => forall|j: int| 0 <= j < codes.len() ==> codes[j] != 0,
        },
    decreases codes.len(),
{
    if codes.len() > 0 {
        lemma_first_empty(codes.drop_first());
        if codes[0] != 0 {
            match first_empty(codes.drop_first()) {
                Some(i) => {
                    assert forall|j: int| 0 <= j < i + 1 implies codes[j] != 0 by {
                        if j > 0 {
                            assert(codes[j] == codes.drop_first()[j - 1]);
                        }
                    }
                },
                None => {
                    assert forall|j: int| 0 <= j < codes.len() implies codes[j] != 0 by {
                        if j > 0 {
                            assert(codes[j] == codes.drop_first()[j - 1]);
                        }
                    }
                },
            }
        }
    }
}

/// Marks `keycode` as held in the report.
pub fn set_key(report: &mut KeyboardReport, keycode: u8)
    ensures
        final(report).keycodes@ == spec_set_key(old(report).keycodes@, keycode),
        final(report).modifier == old(report).modifier,
        final(report).leds == old(report).leds,
        final(report).reserved == old(report).reserved,
{
    let mut i: usize = 0;
    while i < 6
        invariant
            i <= 6,
            *report == *old(report),
            forall|j: int| 0 <= j < i ==> report.keycodes@[j] != keycode,
        decreases 6 - i,
    {
        if report.keycodes[i] == keycode {
            assert(report.keycodes@.contains(keycode));
            return;
        }
        i = i + 1;
    }
    assert(!report.keycodes@.contains(keycode));
    let mut i: usize = 0;
    while i < 6
        invariant
            i <= 6,
            *report == *old(report),
            !old(report).keycodes@.contains(keycode),
            forall|j: int| 0 <= j < i ==> report.keycodes@[j] != 0,
        decreases 6 - i,
    {
        if report.keycodes[i] == 0 {
            proof {
                lemma_first_empty(report.keycodes@);
            }
            assert(first_empty(report.keycodes@) == Some(i as int));
            report.keycodes[i] = keycode;
            assert(report.keycodes@ == old(report).keycodes@.update(i as int, keycode));
            return;
        }
        i = i + 1;
    }
    proof {
        lemma_first_empty(report.keycodes@);
    }
}

/// Marks `keycode` as no longer held in the report.
pub fn clear_key(report: &mut KeyboardReport, keycode: u8)
    ensures
        final(report).keycodes@ == spec_clear_key(old(report).keycodes@, keycode),
        final(report).modifier == old(report).modifier,
        final(report).leds == old(report).leds,
        final(report).reserved == old(report).reserved,
{
    let mut i: usize = 0;
    while i < 6
        invariant
            i <= 6,
            report.modifier == old(report).modifier,
            report.leds == old(report).leds,
            report.reserved == old(report).reserved,
            forall|j: int|
                0 <= j < i ==> report.keycodes@[j] == (if old(report).keycodes@[j] == keycode {
                    0u8
                } else {
                    old(report).keycodes@[j]
                }),
            forall|j: int| i <= j < 6 ==> report.keycodes@[j] == old(report).keycodes@[j],
        decreases 6 - i,
    {
        if report.keycodes[i] == keycode {
            report.keycodes[i] = 0;
        }
        i = i + 1;
    }
    assert(report.keycodes@ == spec_clear_key(old(report).keycodes@, keycode));
}
/// The slots after one event.
pub open spec fn apply_keyboard_event(codes: Seq<u8>, event: KeyboardEvent) -> Seq<u8> {
    match event {
        KeyboardEvent::Pressed(k) => spec_set_key(codes, k.spec_code()),
        KeyboardEvent::Released(k) => spec_clear_key(codes, k.spec_code()),
    }
}

/// The slots after a run of events, taken in order.
pub open spec fn apply_keyboard_events(codes: Seq<u8>, events: Seq<KeyboardEvent>) -> Seq<u8>
    decreases events.len(),
{
    if events.len() == 0 {
        codes
    } else {
        apply_keyboard_event(apply_keyboard_events(codes, events.drop_last()), events.last())
    }
}

/// The state of the keyboard report writer: the report that it sends on each ready cycle.
pub struct Keyboard {
    pub report: KeyboardReport,
}

impl Keyboard {
    pub fn new() -> (r: Keyboard)
        ensures
            r.report.keycodes@ == seq![0u8, 0u8, 0u8, 0u8, 0u8, 0u8],
            r.report.modifier == 0,
            r.report.leds == 0,
            r.report.reserved == 0,
    {
        Keyboard { report: KeyboardReport::new() }
    }

    /// Folds one event into the report.
    pub fn apply(&mut self, event: KeyboardEvent)
        ensures
            final(self).report.keycodes@ == apply_keyboard_event(old(self).report.keycodes@, event),
            final(self).report.modifier == old(self).report.modifier,
            final(self).report.leds == old(self).report.leds,
            final(self).report.reserved == old(self).report.reserved,
    {
        match event {
            KeyboardEvent::Pressed(k) => set_key(&mut self.report, k.code()),
            KeyboardEvent::Released(k) => clear_key(&mut self.report, k.code()),
        }
    }

    /// One ready cycle: drains every queued event into the report and returns the report to
    /// send, so that a burst of events costs one report.
    pub fn process_write(&mut self, events: &[KeyboardEvent]) -> (r: KeyboardReport)
        ensures
            final(self).report.keycodes@ == apply_keyboard_events(
                old(self).report.keycodes@,
                events@,
            ),
            final(self).report.modifier == old(self).report.modifier,
            final(self).report.leds == old(self).report.leds,
            final(self).report.reserved == old(self).report.reserved,
            r == final(self).report,
    {
        let mut i: usize = 0;
        while i < events.len()
            invariant
                i <= events@.len(),
                self.report.keycodes@ == apply_keyboard_events(
                    old(self).report.keycodes@,
                    events@.take(i as int),
                ),
                self.report.modifier == old(self).report.modifier,
                self.report.leds == old(self).report.leds,
                self.report.reserved == old(self).report.reserved,
            decreases events.len() - i,
        {
            assert(events@.take(i + 1).drop_last() == events@.take(i as int));
            assert(events@.take(i + 1).last() == events@[i as int]);
            self.apply(events[i]);
            i = i + 1;
        }
        assert(events@.take(events@.len() as int) == events@);
        self.report
    }
}

/// A duplicated press holds one slot, and one release frees it: pressing a key again
/// changes nothing, a key pressed into a report with room for it holds exactly one slot,
/// and after its release no slot holds it.
pub proof fn lemma_duplicate_press_single_release(codes: Seq<u8>, keycode: u8)
    requires
        keycode != 0,
    ensures
        spec_set_key(spec_set_key(codes, keycode), keycode) == spec_set_key(codes, keycode),
        !codes.contains(keycode) && first_empty(codes) is Some ==> {
            let s = spec_set_key(codes, keycode);
            &&& s.contains(keycode)
            &&& forall|i: int, j: int|
                0 <= i < s.len() && 0 <= j < s.len() && s[i] == keycode && s[j] == keycode ==> i
                    == j
        },
        !spec_clear_key(spec_set_key(spec_set_key(codes, keycode), keycode), keycode).contains(
            keycode,
        ),
{
    lemma_first_empty(codes);
    let s = spec_set_key(codes, keycode);
    if !codes.contains(keycode) {
        if let Some(k) = first_empty(codes) {
            assert(s[k] == keycode);
            assert forall|i: int, j: int|
                0 <= i < s.len() && 0 <= j < s.len() && s[i] == keycode && s[j] == keycode
                    implies i == j by {
                if i != k {
                    assert(s[i] == codes[i]);
                }
                if j != k {
                    assert(s[j] == codes[j]);
                }
            }
        }
    }
    if s.contains(keycode) {
        assert(spec_set_key(s, keycode) == s);
    } else {
        lemma_first_empty(s);
        assert(first_empty(codes) is None);
        assert(s == codes);
    }
    let c = spec_clear_key(s, keycode);
    assert forall|i: int| 0 <= i < c.len() implies c[i] != keycode by {}
}

/// With every slot taken, a new key is dropped and no held key is evicted.
pub proof fn lemma_full_report_drops_new_key(codes: Seq<u8>, keycode: u8)
    requires
        forall|i: int| 0 <= i < codes.len() ==> codes[i] != 0,
        !codes.contains(keycode),
    ensures
        spec_set_key(codes, keycode) == codes,
{
    lemma_first_empty(codes);
}

} // verus!
