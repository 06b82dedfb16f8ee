//! The mouse report writer: clicks as levels, scrolling and movement as rate-limited steps.

use vstd::prelude::*;

use crate::model::MouseInput;

verus! {

/// A mouse action that started or ended.
#[derive(Clone, Copy, Debug, PartialEq, Eq, Structural)]
pub enum MouseEvent {
    Pressed(MouseInput),
    Released(MouseInput),
}
/// Ticks between two steps of a held scroll or move.
pub const RATE_PERIOD: u32 = 80;

/// A boot-protocol mouse report.
#[derive(Clone, Copy, Debug, PartialEq, Eq, Structural)]
pub struct MouseReport {
    pub buttons: u8,
    pub x: i8,
    pub y: i8,
    pub wheel: i8,
    pub pan: i8,
}

/// The button bit of a click: left is bit 0, right bit 1, middle bit 2.
pub open spec fn spec_button_bit(m: MouseInput) -> u8 {
    match m {
        MouseInput::ClickLeft => 1,
        MouseInput::ClickRight => 2,
        MouseInput::ClickMiddle => 4,
        _ => 0,
    }
}

/// Whether an action scrolls or moves, rather than clicks.
pub open spec fn is_directional(m: MouseInput) -> bool {
    spec_button_bit(m) == 0
}

/// A magnitude divided by ten, rounding toward zero, and kept within `i8`.
pub open spec fn step(v: int) -> i8 {
    let q = if v >= 0 {
        v / 10
    } else {
        -((-v) / 10)
    };
    if q > 127 {
        127i8
    } else if q < -128 {
        -128i8
    } else {
        q as i8
    }
}

/// Adds a delta to a report field, saturating at the bounds of `i8`.
pub open spec fn add_sat(a: i8, d: i8) -> i8 {
    let s = a + d;
    if s > 127 {
        127i8
    } else if s < -128 {
        -128i8
    } else {
        s as i8
    }
}

/// One step of a held directional action: up scrolls the wheel up, right pans right,
/// a move goes in screen coordinates (y grows downward).
pub open spec fn apply_motion(r: MouseReport, m: MouseInput) -> MouseReport {
    match m {
        MouseInput::ScrollUp(v) => MouseReport { wheel: add_sat(r.wheel, step(v as int)), ..r },
        MouseInput::ScrollDown(v) => MouseReport { wheel: add_sat(r.wheel, step(-(v as int))), ..r },
        MouseInput::ScrollRight(v) => MouseReport { pan: add_sat(r.pan, step(v as int)), ..r },
        MouseInput::ScrollLeft(v) => MouseReport { pan: add_sat(r.pan, step(-(v as int))), ..r },
        MouseInput::MoveUp(v) => MouseReport { y: add_sat(r.y, step(-(v as int))), ..r },
        MouseInput::MoveDown(v) => MouseReport { y: add_sat(r.y, step(v as int)), ..r },
        MouseInput::MoveRight(v) => MouseReport { x: add_sat(r.x, step(v as int)), ..r },
        MouseInput::MoveLeft(v) => MouseReport { x: add_sat(r.x, step(-(v as int))), ..r },
        _ => r,
    }
}

/// The steps of every held action, in the order they were pressed.
pub open spec fn apply_motions(r: MouseReport, active: Seq<MouseInput>) -> MouseReport
    decreases active.len(),
{
    if active.len() == 0 {
        r
    } else {
        apply_motion(apply_motions(r, active.drop_last()), active.last())
    }
}

/// The report of a cycle: the held buttons, and the steps of the held actions on ticks that
/// are multiples of the rate period, none on the others.
pub open spec fn cycle_report(buttons: u8, active: Seq<MouseInput>, ticks: u32) -> MouseReport {
    let still = MouseReport { buttons, x: 0, y: 0, wheel: 0, pan: 0 };
    if ticks % RATE_PERIOD == 0 {
        apply_motions(still, active)
    } else {
        still
    }
}

/// The held actions after one event: a press of a directional action starts holding it
/// (once), a release stops holding it.
pub open spec fn next_active(active: Seq<MouseInput>, e: MouseEvent) -> Seq<MouseInput> {
    match e {
        MouseEvent::Pressed(m) => if is_directional(m) && !active.contains(m) {
            active.push(m)
        } else {
            active
        },
        MouseEvent::Released(m) => active.filter(|a: MouseInput| a != m),
    }
}

/// The buttons after one event: a click sets its bit while pressed and clears it on release.
pub open spec fn next_buttons(buttons: u8, e: MouseEvent) -> u8 {
    match e {
        MouseEvent::Pressed(m) => buttons | spec_button_bit(m),
        MouseEvent::Released(m) => buttons & !spec_button_bit(m),
    }
}

pub open spec fn active_after(active: Seq<MouseInput>, es: Seq<MouseEvent>) -> Seq<MouseInput>
    decreases es.len(),
{
    if es.len() == 0 {
        active
    } else {
        next_active(active_after(active, es.drop_last()), es.last())
    }
}

pub open spec fn buttons_after(buttons: u8, es: Seq<MouseEvent>) -> u8
    decreases es.len(),
{
    if es.len() == 0 {
        buttons
    } else {
        next_buttons(buttons_after(buttons, es.drop_last()), es.last())
    }
}

/// Whether a report moves nothing and holds no button.
pub open spec fn is_idle(r: MouseReport) -> bool {
    r.buttons == 0 && r.x == 0 && r.y == 0 && r.wheel == 0 && r.pan == 0
}

/// The state of the mouse report writer.
pub struct Mouse {
    /// Held buttons, a level that persists across reports.
    pub buttons: u8,
    /// Free-running cycle counter that paces held actions.
    pub ticks: u32,
    /// Held scroll and move actions, each once, in the order they were pressed.
    pub active: Vec<MouseInput>,
    /// The buttons of the last report sent.
    pub sent_buttons: u8,
}

impl Mouse {
    pub fn new() -> (r: Mouse)
        ensures
            r.buttons == 0,
            r.ticks == 0,
            r.active@.len() == 0,
            r.sent_buttons == 0,
    {
        Mouse { buttons: 0, ticks: 0, active: Vec::new(), sent_buttons: 0 }
    }

    /// Folds one event into the held buttons and actions.
    pub fn apply(&mut self, event: MouseEvent)
        ensures
            final(self).active@ == next_active(old(self).active@, event),
            final(self).buttons == next_buttons(old(self).buttons, event),
            final(self).ticks == old(self).ticks,
            final(self).sent_buttons == old(self).sent_buttons,
    {
        match event {
            MouseEvent::Pressed(m) => {
                let bit = button_bit(m);
                self.buttons = self.buttons | bit;
                if bit == 0 && !contains_input(&self.active, m) {
                    self.active.push(m);
                }
            },
            MouseEvent::Released(m) => {
                let bit = button_bit(m);
                self.buttons = self.buttons & !bit;
                remove_input(&mut self.active, m);
            },
        }
    }

    /// One ready cycle: advances the tick counter, drains the queued events, and returns the
    /// report to send; an idle report is skipped unless the buttons changed since the last one
    /// sent, so that a released click always reaches the host.
    pub fn process_write(&mut self, events: &[MouseEvent]) -> (r: Option<MouseReport>)
        ensures
            final(self).ticks == (if old(self).ticks == u32::MAX {
                0
            } else {
                (old(self).ticks + 1) as u32
            }),
            final(self).active@ == active_after(old(self).active@, events@),
            final(self).buttons == buttons_after(old(self).buttons, events@),
            ({
                let report = cycle_report(final(self).buttons, final(self).active@, final(self).ticks);
                if is_idle(report) && report.buttons == old(self).sent_buttons {
                    r is None && final(self).sent_buttons == old(self).sent_buttons
                } else {
                    r == Some(report) && final(self).sent_buttons == report.buttons
                }
            }),
    {
        self.ticks = self.ticks.wrapping_add(1);
        let mut i: usize = 0;
        while i < events.len()
            invariant
                i <= events@.len(),
                self.active@ == active_after(old(self).active@, events@.take(i as int)),
                self.buttons == buttons_after(old(self).buttons, events@.take(i as int)),
                self.ticks == (if old(self).ticks == u32::MAX {
                    0
                } else {
                    (old(self).ticks + 1) as u32
                }),
                self.sent_buttons == old(self).sent_buttons,
            decreases events.len() - i,
        {
            assert(events@.take(i + 1).drop_last() == events@.take(i as int));
            assert(events@.take(i + 1).last() == events@[i as int]);
            self.apply(events[i]);
            i = i + 1;
        }
        assert(events@.take(events@.len() as int) == events@);
        let mut report = MouseReport { buttons: self.buttons, x: 0, y: 0, wheel: 0, pan: 0 };
        if self.ticks % RATE_PERIOD == 0 {
            let mut k: usize = 0;
            while k < self.active.len()
                invariant
                    k <= self.active@.len(),
                    report == apply_motions(
                        MouseReport { buttons: self.buttons, x: 0, y: 0, wheel: 0, pan: 0 },
                        self.active@.take(k as int),
                    ),
                decreases self.active.len() - k,
            {
                assert(self.active@.take(k + 1).drop_last() == self.active@.take(k as int));
                assert(self.active@.take(k + 1).last() == self.active@[k as int]);
                report = motion(report, self.active[k]);
                k = k + 1;
            }
            assert(self.active@.take(self.active@.len() as int) == self.active@);
        }
        if report.buttons == 0 && report.x == 0 && report.y == 0 && report.wheel == 0
            && report.pan == 0 && report.buttons == self.sent_buttons {
            None
        } else {
            self.sent_buttons = report.buttons;
            Some(report)
        }
    }
}

/// The button bit of a click, zero for a directional action.
pub fn button_bit(m: MouseInput) -> (r: u8)
    ensures
        r == spec_button_bit(m),
{
    match m {
        MouseInput::ClickLeft => 1,
        MouseInput::ClickRight => 2,
        MouseInput::ClickMiddle => 4,
        _ => 0,
    }
}

fn contains_input(active: &Vec<MouseInput>, m: MouseInput) -> (r: bool)
    ensures
        r == active@.contains(m),
{
    let mut i: usize = 0;
    while i < active.len()
        invariant
            i <= active@.len(),
            forall|j: int| 0 <= j < i ==> active@[j] != m,
        decreases active.len() - i,
    {
        if active[i] == m {
            assert(active@[i as int] == m);
            return true;
        }
        i = i + 1;
    }
    false
}

fn remove_input(active: &mut Vec<MouseInput>, m: MouseInput)
    ensures
        final(active)@ == old(active)@.filter(|a: MouseInput| a != m),
{
    let mut kept: Vec<MouseInput> = Vec::new();
    let mut i: usize = 0;
    while i < active.len()
        invariant
            i <= active@.len(),
            *active == *old(active),
            kept@ == active@.take(i as int).filter(|a: MouseInput| a != m),
        decreases active.len() - i,
    {
        let a = active[i];
        assert(active@.take(i + 1).drop_last() == active@.take(i as int));
        reveal(Seq::filter);
        if a != m {
            kept.push(a);
        }
        i = i + 1;
    }
    assert(active@.take(active@.len() as int) == active@);
    *active = kept;
}

fn step_of(v: i32) -> (r: i8)
    requires
        -32768 <= v <= 32768,
    ensures
        r == step(v as int),
{
    let q: i32 = if v >= 0 {
        v / 10
    } else {
        -((-v) / 10)
    };
    if q > 127 {
        127
    } else if q < -128 {
        -128
    } else {
        q as i8
    }
}

fn add_sat_i8(a: i8, d: i8) -> (r: i8)
    ensures
        r == add_sat(a, d),
{
    let s: i16 = a as i16 + d as i16;
    if s > 127 {
        127
    } else if s < -128 {
        -128
    } else {
        s as i8
    }
}

fn motion(r: MouseReport, m: MouseInput) -> (out: MouseReport)
    ensures
        out == apply_motion(r, m),
{
    match m {
        MouseInput::ScrollUp(v) => MouseReport { wheel: add_sat_i8(r.wheel, step_of(v as i32)), ..r },
        MouseInput::ScrollDown(v) => MouseReport { wheel: add_sat_i8(r.wheel, step_of(-(v as i32))), ..r },
        MouseInput::ScrollRight(v) => MouseReport { pan: add_sat_i8(r.pan, step_of(v as i32)), ..r },
        MouseInput::ScrollLeft(v) => MouseReport { pan: add_sat_i8(r.pan, step_of(-(v as i32))), ..r },
        MouseInput::MoveUp(v) => MouseReport { y: add_sat_i8(r.y, step_of(-(v as i32))), ..r },
        MouseInput::MoveDown(v) => MouseReport { y: add_sat_i8(r.y, step_of(v as i32)), ..r },
        MouseInput::MoveRight(v) => MouseReport { x: add_sat_i8(r.x, step_of(v as i32)), ..r },
        MouseInput::MoveLeft(v) => MouseReport { x: add_sat_i8(r.x, step_of(-(v as i32))), ..r },
        _ => r,
    }
}
/// A held scroll up of magnitude ten or more moves the wheel on the ticks that are
/// multiples of the rate period, and only on those; nothing else moves.
pub proof fn lemma_held_scroll_is_rate_limited(buttons: u8, v: i16, ticks: u32)
    requires
        v >= 10,
    ensures
        cycle_report(buttons, seq![MouseInput::ScrollUp(v)], ticks).wheel != 0 <==> ticks
            % RATE_PERIOD == 0,
        ticks % RATE_PERIOD == 0 ==> cycle_report(buttons, seq![MouseInput::ScrollUp(v)], ticks).wheel
            == step(v as int),
        cycle_report(buttons, seq![MouseInput::ScrollUp(v)], ticks).x == 0,
        cycle_report(buttons, seq![MouseInput::ScrollUp(v)], ticks).y == 0,
        cycle_report(buttons, seq![MouseInput::ScrollUp(v)], ticks).pan == 0,
        cycle_report(buttons, seq![MouseInput::ScrollUp(v)], ticks).buttons == buttons,
{
    let active = seq![MouseInput::ScrollUp(v)];
    let still = MouseReport { buttons, x: 0, y: 0, wheel: 0, pan: 0 };
    assert(active.drop_last() =~= Seq::<MouseInput>::empty());
    assert(active.last() == MouseInput::ScrollUp(v));
    assert(apply_motions(still, active.drop_last()) == still);
    assert(apply_motions(still, active) == apply_motion(still, MouseInput::ScrollUp(v)));
}

} // verus!
