//! The input mapping engine: finds which mappings start or stop being held on each
//! polling tick, and turns those edges into events for the writers.

use vstd::prelude::*;

use crate::keyboard::KeyboardEvent;
use crate::model::{ComputerInput, Config, DpedalInput, Mapping, PinRemapping, Profile};
use crate::mouse::MouseEvent;

verus! {

/// Which of the six physical inputs are held down on one tick.
#[derive(Clone, Copy, Debug, PartialEq, Eq, Structural)]
pub struct DpedalInputState {
    pub button_left: bool,
    pub button_right: bool,
    pub dpad_up: bool,
    pub dpad_down: bool,
    pub dpad_left: bool,
    pub dpad_right: bool,
}

impl DpedalInputState {
    pub open spec fn spec_is_pressed(self, input: DpedalInput) -> bool {
        match input {
            DpedalInput::DpadUp => self.dpad_up,
            DpedalInput::DpadDown => self.dpad_down,
            DpedalInput::DpadLeft => self.dpad_left,
            DpedalInput::DpadRight => self.dpad_right,
            DpedalInput::ButtonLeft => self.button_left,
            DpedalInput::ButtonRight => self.button_right,
        }
    }

    /// Whether `input` is held.
    pub fn is_pressed(&self, input: DpedalInput) -> (r: bool)
        ensures
            r == self.spec_is_pressed(input),
    {
        match input {
            DpedalInput::DpadUp => self.dpad_up,
            DpedalInput::DpadDown => self.dpad_down,
            DpedalInput::DpadLeft => self.dpad_left,
            DpedalInput::DpadRight => self.dpad_right,
            DpedalInput::ButtonLeft => self.button_left,
            DpedalInput::ButtonRight => self.button_right,
        }
    }

    /// A combination is satisfied when it is not empty and every input of it is held.
    pub open spec fn spec_is_all_pressed(self, check: Seq<DpedalInput>) -> bool {
        check.len() > 0 && forall|i: int| 0 <= i < check.len() ==> self.spec_is_pressed(#[trigger] check[i])
    }

    /// Whether every input of `check` is held; an empty combination never is, so that a
    /// blank mapping cannot fire for good.
    pub fn is_all_pressed(&self, check: &[DpedalInput]) -> (r: bool)
        ensures
            r == self.spec_is_all_pressed(check@),
    {
        if check.len() == 0 {
            return false;
        }
        let mut i: usize = 0;
        while i < check.len()
            invariant
                i <= check@.len(),
                forall|j: int| 0 <= j < i ==> self.spec_is_pressed(#[trigger] check@[j]),
            decreases check.len() - i,
        {
            if !self.is_pressed(check[i]) {
                return false;
            }
            i = i + 1;
        }
        true
    }

    /// This state with `input` let go.
    pub open spec fn spec_with_released(self, input: DpedalInput) -> DpedalInputState {
        match input {
            DpedalInput::DpadUp => DpedalInputState { dpad_up: false, ..self },
            DpedalInput::DpadDown => DpedalInputState { dpad_down: false, ..self },
            DpedalInput::DpadLeft => DpedalInputState { dpad_left: false, ..self },
            DpedalInput::DpadRight => DpedalInputState { dpad_right: false, ..self },
            DpedalInput::ButtonLeft => DpedalInputState { button_left: false, ..self },
            DpedalInput::ButtonRight => DpedalInputState { button_right: false, ..self },
        }
    }

    /// This state with `input` let go.
    pub fn with_released(&self, input: DpedalInput) -> (r: DpedalInputState)
        ensures
            r == self.spec_with_released(input),
    {
        let mut r = *self;
        match input {
            DpedalInput::DpadUp => r.dpad_up = false,
            DpedalInput::DpadDown => r.dpad_down = false,
            DpedalInput::DpadLeft => r.dpad_left = false,
            DpedalInput::DpadRight => r.dpad_right = false,
            DpedalInput::ButtonLeft => r.button_left = false,
            DpedalInput::ButtonRight => r.button_right = false,
        }
        r
    }
}

/// A combination is satisfied exactly when it is not empty and all of its inputs are held,
/// and letting go of any one of its inputs, with the others still held, unsatisfies it.
pub proof fn lemma_all_pressed_needs_every_input(
    state: DpedalInputState,
    check: Seq<DpedalInput>,
    k: int,
)
    requires
        0 <= k < check.len(),
    ensures
        state.spec_is_all_pressed(check) <==> (check.len() > 0 && forall|i: int|
            0 <= i < check.len() ==> state.spec_is_pressed(#[trigger] check[i])),
        !state.spec_with_released(check[k]).spec_is_all_pressed(check),
{
    let released = state.spec_with_released(check[k]);
    assert(!released.spec_is_pressed(check[k]));
}
/// The edge detector of one mapping.
#[derive(Clone, Copy, Debug, PartialEq, Eq, Structural)]
pub enum MappingState {
    Pressed,
    Released,
}

/// An output that a mapping starts or stops sending.
#[derive(Clone, Copy, Debug, PartialEq, Eq, Structural)]
pub enum InputEvent {
    Pressed(ComputerInput),
    Released(ComputerInput),
}

/// Where an event goes: to the keyboard writer, to the mouse writer, or nowhere.
#[derive(Clone, Copy, Debug, PartialEq, Eq, Structural)]
pub enum Route {
    Keyboard(KeyboardEvent),
    Mouse(MouseEvent),
    Dropped,
}

/// The detector state that a satisfied or unsatisfied combination leads to.
pub open spec fn state_for(held: bool) -> MappingState {
    if held {
        MappingState::Pressed
    } else {
        MappingState::Released
    }
}

pub open spec fn pressed_event(o: ComputerInput) -> InputEvent {
    InputEvent::Pressed(o)
}

pub open spec fn released_event(o: ComputerInput) -> InputEvent {
    InputEvent::Released(o)
}

/// The events of one mapping on one tick: every output pressed when the combination
/// becomes satisfied, every output released when it stops being so, and nothing otherwise.
pub open spec fn mapping_events(m: Mapping, prior: MappingState, input: DpedalInputState) -> Seq<
    InputEvent,
> {
    let held = input.spec_is_all_pressed(m.input@);
    if held && prior == MappingState::Released {
        m.output@.map_values(|o: ComputerInput| pressed_event(o))
    } else if !held && prior == MappingState::Pressed {
        m.output@.map_values(|o: ComputerInput| released_event(o))
    } else {
        Seq::empty()
    }
}

/// The events of the first `ms.len()` mappings, in mapping order.
pub open spec fn tick_events(
    ms: Seq<Mapping>,
    prior: Seq<MappingState>,
    input: DpedalInputState,
) -> Seq<InputEvent>
    decreases ms.len(),
{
    if ms.len() == 0 {
        Seq::empty()
    } else {
        tick_events(ms.drop_last(), prior, input) + mapping_events(
            ms.last(),
            prior[ms.len() - 1],
            input,
        )
    }
}

/// The detectors resized to `n` mappings: those that remain keep their state, new ones
/// start released.
pub open spec fn resized(states: Seq<MappingState>, n: nat) -> Seq<MappingState> {
    Seq::new(n, |i: int| if i < states.len() { states[i] } else { MappingState::Released })
}

/// The detectors after a tick: each mapping is pressed exactly when its combination holds.
pub open spec fn next_states(ms: Seq<Mapping>, input: DpedalInputState) -> Seq<MappingState> {
    Seq::new(ms.len(), |i: int| state_for(input.spec_is_all_pressed(ms[i].input@)))
}

/// The per-mapping edge detectors of the active profile.
pub struct Inputs {
    pub states: Vec<MappingState>,
}

impl Inputs {
    pub fn new() -> (r: Inputs)
        ensures
            r.states@.len() == 0,
    {
        Inputs { states: Vec::new() }
    }

    /// Resizes the detectors to the profile's mapping count, then evaluates every mapping
    /// against `input` and returns the events of the tick in mapping order.
    pub fn tick(&mut self, profile: &Profile, input: &DpedalInputState) -> (events: Vec<InputEvent>)
        ensures
            events@ == tick_events(
                profile.mappings@,
                resized(old(self).states@, profile.mappings@.len()),
                *input,
            ),
            final(self).states@ == next_states(profile.mappings@, *input),
    {
        let n = profile.mappings.len();
        self.states.truncate(n);
        while self.states.len() < n
            invariant
                self.states@.len() <= n,
                self.states@ == resized(old(self).states@, n as nat).take(self.states@.len() as int),
                self.states@.len() < n ==> self.states@.len() >= old(self).states@.len(),
            decreases n - self.states.len(),
        {
            self.states.push(MappingState::Released);
            assert(self.states@ == resized(old(self).states@, n as nat).take(self.states@.len() as int));
        }
        assert(self.states@ == resized(old(self).states@, n as nat));
        let ghost prior = self.states@;
        let mut events: Vec<InputEvent> = Vec::new();
        let mut i: usize = 0;
        while i < n
            invariant
                n == profile.mappings@.len(),
                prior == resized(old(self).states@, n as nat),
                self.states@.len() == n,
                i <= n,
                events@ == tick_events(profile.mappings@.take(i as int), prior, *input),
                forall|j: int| 0 <= j < i ==> self.states@[j] == state_for(
                    input.spec_is_all_pressed(#[trigger] profile.mappings@[j].input@),
                ),
                forall|j: int| i <= j < n ==> self.states@[j] == prior[j],
            decreases n - i,
        {
            let m = &profile.mappings[i];
            let held = input.is_all_pressed(m.input.as_slice());
            let before = self.states[i];
            let ghost start = events@;
            let mut k: usize = 0;
            if held && before == MappingState::Released {
                while k < m.output.len()
                    invariant
                        k <= m.output@.len(),
                        events@ == start + m.output@.take(k as int).map_values(
                            |o: ComputerInput| pressed_event(o),
                        ),
                    decreases m.output.len() - k,
                {
                    events.push(InputEvent::Pressed(m.output[k]));
                    k = k + 1;
                }
                assert(m.output@.take(k as int) == m.output@);
                self.states.set(i, MappingState::Pressed);
            } else if !held && before == MappingState::Pressed {
                while k < m.output.len()
                    invariant
                        k <= m.output@.len(),
                        events@ == start + m.output@.take(k as int).map_values(
                            |o: ComputerInput| released_event(o),
                        ),
                    decreases m.output.len() - k,
                {
                    events.push(InputEvent::Released(m.output[k]));
                    k = k + 1;
                }
                assert(m.output@.take(k as int) == m.output@);
                self.states.set(i, MappingState::Released);
            } else {
                assert(events@ == start + Seq::<InputEvent>::empty());
            }
            assert(profile.mappings@.take(i + 1).drop_last() == profile.mappings@.take(i as int));
            i = i + 1;
        }
        assert(profile.mappings@.take(n as int) == profile.mappings@);
        assert(self.states@ == next_states(profile.mappings@, *input));
        events
    }
}
/// A mapping whose combination is empty is never pressed and never sends a press,
/// whatever the inputs and whatever its detector held before.
pub proof fn lemma_empty_combo_never_pressed(
    ms: Seq<Mapping>,
    prior: MappingState,
    input: DpedalInputState,
    i: int,
)
    requires
        0 <= i < ms.len(),
        ms[i].input@.len() == 0,
    ensures
        next_states(ms, input)[i] == MappingState::Released,
        forall|k: int|
            0 <= k < mapping_events(ms[i], prior, input).len() ==> !(#[trigger] mapping_events(
                ms[i],
                prior,
                input,
            )[k] is Pressed),
{
}

/// Detectors that already agree with the inputs produce no events: holding a combination
/// over further ticks sends nothing more.
proof fn lemma_settled_ticks_are_silent(
    ms: Seq<Mapping>,
    prior: Seq<MappingState>,
    input: DpedalInputState,
)
    requires
        prior.len() >= ms.len(),
        forall|i: int|
            0 <= i < ms.len() ==> prior[i] == state_for(
                input.spec_is_all_pressed(#[trigger] ms[i].input@),
            ),
    ensures
        tick_events(ms, prior, input) == Seq::<InputEvent>::empty(),
    decreases ms.len(),
{
    if ms.len() > 0 {
        let p = ms.drop_last();
        assert forall|i: int| 0 <= i < p.len() implies prior[i] == state_for(
            input.spec_is_all_pressed(#[trigger] p[i].input@),
        ) by {
            assert(p[i] == ms[i]);
        }
        lemma_settled_ticks_are_silent(p, prior, input);
        assert(prior[ms.len() - 1] == state_for(input.spec_is_all_pressed(ms.last().input@)));
        assert(mapping_events(ms.last(), prior[ms.len() - 1], input) == Seq::<InputEvent>::empty());
    }
}

/// Edges, not levels: a mapping whose combination becomes satisfied sends every output
/// pressed, once; one that stops being satisfied sends every output released, once; and a
/// second tick with the same inputs sends nothing at all.
pub proof fn lemma_events_only_on_edges(
    ms: Seq<Mapping>,
    prior: Seq<MappingState>,
    input: DpedalInputState,
    i: int,
)
    requires
        0 <= i < ms.len(),
    ensures
        prior.len() > i && prior[i] == MappingState::Released && input.spec_is_all_pressed(
            ms[i].input@,
        ) ==> mapping_events(ms[i], prior[i], input) == ms[i].output@.map_values(
            |o: ComputerInput| pressed_event(o),
        ),
        prior.len() > i && prior[i] == MappingState::Pressed && !input.spec_is_all_pressed(
            ms[i].input@,
        ) ==> mapping_events(ms[i], prior[i], input) == ms[i].output@.map_values(
            |o: ComputerInput| released_event(o),
        ),
        prior.len() > i && prior[i] == state_for(input.spec_is_all_pressed(ms[i].input@))
            ==> mapping_events(ms[i], prior[i], input) == Seq::<InputEvent>::empty(),
        tick_events(ms, resized(next_states(ms, input), ms.len()), input)
            == Seq::<InputEvent>::empty(),
{
    let settled = resized(next_states(ms, input), ms.len());
    lemma_settled_ticks_are_silent(ms, settled, input);
}
/// Where a started output goes: keys to the keyboard writer, mouse actions to the mouse
/// writer; `Nothing` and device controls are dropped.
pub open spec fn spec_pressed(input: ComputerInput) -> Route {
    match input {
        ComputerInput::Keyboard(key) => Route::Keyboard(KeyboardEvent::Pressed(key)),
        ComputerInput::Mouse(mouse) => Route::Mouse(MouseEvent::Pressed(mouse)),
        _ => Route::Dropped,
    }
}

/// Where a stopped output goes, as for a started one.
pub open spec fn spec_released(input: ComputerInput) -> Route {
    match input {
        ComputerInput::Keyboard(key) => Route::Keyboard(KeyboardEvent::Released(key)),
        ComputerInput::Mouse(mouse) => Route::Mouse(MouseEvent::Released(mouse)),
        _ => Route::Dropped,
    }
}

pub fn pressed(input: ComputerInput) -> (r: Route)
    ensures
        r == spec_pressed(input),
{
    match input {
        ComputerInput::Nothing => Route::Dropped,
        ComputerInput::Keyboard(key) => Route::Keyboard(KeyboardEvent::Pressed(key)),
        ComputerInput::Mouse(mouse) => Route::Mouse(MouseEvent::Pressed(mouse)),
        ComputerInput::Control(_) => Route::Dropped,
    }
}

pub fn released(input: ComputerInput) -> (r: Route)
    ensures
        r == spec_released(input),
{
    match input {
        ComputerInput::Nothing => Route::Dropped,
        ComputerInput::Keyboard(key) => Route::Keyboard(KeyboardEvent::Released(key)),
        ComputerInput::Mouse(mouse) => Route::Mouse(MouseEvent::Released(mouse)),
        ComputerInput::Control(_) => Route::Dropped,
    }
}

/// Routes one event of the engine.
pub fn route(event: InputEvent) -> (r: Route)
    ensures
        r == match event {
            InputEvent::Pressed(o) => spec_pressed(o),
            InputEvent::Released(o) => spec_released(o),
        },
{
    match event {
        InputEvent::Pressed(o) => pressed(o),
        InputEvent::Released(o) => released(o),
    }
}

/// The events for the keyboard writer among `events`, in order.
pub open spec fn keyboard_events(events: Seq<InputEvent>) -> Seq<KeyboardEvent>
    decreases events.len(),
{
    if events.len() == 0 {
        Seq::empty()
    } else {
        let rest = keyboard_events(events.drop_last());
        match route_of(events.last()) {
            Route::Keyboard(e) => rest.push(e),
            _ => rest,
        }
    }
}

/// The events for the mouse writer among `events`, in order.
pub open spec fn mouse_events(events: Seq<InputEvent>) -> Seq<MouseEvent>
    decreases events.len(),
{
    if events.len() == 0 {
        Seq::empty()
    } else {
        let rest = mouse_events(events.drop_last());
        match route_of(events.last()) {
            Route::Mouse(e) => rest.push(e),
            _ => rest,
        }
    }
}

pub open spec fn route_of(event: InputEvent) -> Route {
    match event {
        InputEvent::Pressed(o) => spec_pressed(o),
        InputEvent::Released(o) => spec_released(o),
    }
}

/// Splits the events of a tick into the keyboard queue and the mouse queue, keeping the
/// order within each.
pub fn dispatch(events: &Vec<InputEvent>) -> (r: (Vec<KeyboardEvent>, Vec<MouseEvent>))
    ensures
        r.0@ == keyboard_events(events@),
        r.1@ == mouse_events(events@),
{
    let mut keyboard: Vec<KeyboardEvent> = Vec::new();
    let mut mouse: Vec<MouseEvent> = Vec::new();
    let mut i: usize = 0;
    while i < events.len()
        invariant
            i <= events@.len(),
            keyboard@ == keyboard_events(events@.take(i as int)),
            mouse@ == mouse_events(events@.take(i as int)),
        decreases events.len() - i,
    {
        assert(events@.take(i + 1).drop_last() == events@.take(i as int));
        assert(events@.take(i + 1).last() == events@[i as int]);
        match route(events[i]) {
            Route::Keyboard(e) => keyboard.push(e),
            Route::Mouse(e) => mouse.push(e),
            Route::Dropped => {},
        }
        i = i + 1;
    }
    assert(events@.take(events@.len() as int) == events@);
    (keyboard, mouse)
}

impl Inputs {
    /// One polling tick against the active profile, the first of `config`; a configuration
    /// without profiles sends nothing and leaves the detectors as they were.
    pub fn process(&mut self, config: &Config, input: &DpedalInputState) -> (events: Vec<
        InputEvent,
    >)
        ensures
            config.profiles@.len() == 0 ==> events@.len() == 0 && final(self).states@ == old(
                self,
            ).states@,
            config.profiles@.len() > 0 ==> {
                let ms = config.profiles@[0].mappings@;
                &&& events@ == tick_events(ms, resized(old(self).states@, ms.len()), *input)
                &&& final(self).states@ == next_states(ms, *input)
            },
    {
        if config.profiles.len() == 0 {
            return Vec::new();
        }
        self.tick(&config.profiles[0], input)
    }
}

/// The GPIO pin of each input when no remapping moves it.
pub open spec fn default_pin(input: DpedalInput) -> u32 {
    match input {
        DpedalInput::ButtonLeft => 13,
        DpedalInput::ButtonRight => 27,
        DpedalInput::DpadUp => 26,
        DpedalInput::DpadDown => 16,
        DpedalInput::DpadLeft => 17,
        DpedalInput::DpadRight => 22,
    }
}

/// The pin of `input` after `remappings`: the last remapping of that input wins.
pub open spec fn remapped_pin(remappings: Seq<PinRemapping>, input: DpedalInput) -> u32
    decreases remappings.len(),
{
    if remappings.len() == 0 {
        default_pin(input)
    } else if remappings.last().input == input {
        remappings.last().pin
    } else {
        remapped_pin(remappings.drop_last(), input)
    }
}

/// The pin that each physical input is read from.
#[derive(Clone, Copy, Debug, PartialEq, Eq, Structural)]
pub struct PinAssignment {
    pub button_left: u32,
    pub button_right: u32,
    pub dpad_up: u32,
    pub dpad_down: u32,
    pub dpad_left: u32,
    pub dpad_right: u32,
}

impl PinAssignment {
    pub open spec fn spec_pin(self, input: DpedalInput) -> u32 {
        match input {
            DpedalInput::DpadUp => self.dpad_up,
            DpedalInput::DpadDown => self.dpad_down,
            DpedalInput::DpadLeft => self.dpad_left,
            DpedalInput::DpadRight => self.dpad_right,
            DpedalInput::ButtonLeft => self.button_left,
            DpedalInput::ButtonRight => self.button_right,
        }
    }

    pub fn pin(&self, input: DpedalInput) -> (r: u32)
        ensures
            r == self.spec_pin(input),
    {
        match input {
            DpedalInput::DpadUp => self.dpad_up,
            DpedalInput::DpadDown => self.dpad_down,
            DpedalInput::DpadLeft => self.dpad_left,
            DpedalInput::DpadRight => self.dpad_right,
            DpedalInput::ButtonLeft => self.button_left,
            DpedalInput::ButtonRight => self.button_right,
        }
    }

    /// Resolves the pin of every input from the defaults and the configured remappings.
    pub fn resolve(remappings: &[PinRemapping]) -> (r: PinAssignment)
        ensures
            forall|i: DpedalInput| #[trigger] r.spec_pin(i) == remapped_pin(remappings@, i),
    {
        let mut r = PinAssignment {
            button_left: 13,
            button_right: 27,
            dpad_up: 26,
            dpad_down: 16,
            dpad_left: 17,
            dpad_right: 22,
        };
        let mut k: usize = 0;
        while k < remappings.len()
            invariant
                k <= remappings@.len(),
                forall|i: DpedalInput| #[trigger] r.spec_pin(i) == remapped_pin(
                    remappings@.take(k as int),
                    i,
                ),
            decreases remappings.len() - k,
        {
            let m = remappings[k];
            let ghost before = r;
            match m.input {
                DpedalInput::DpadUp => r.dpad_up = m.pin,
                DpedalInput::DpadDown => r.dpad_down = m.pin,
                DpedalInput::DpadLeft => r.dpad_left = m.pin,
                DpedalInput::DpadRight => r.dpad_right = m.pin,
                DpedalInput::ButtonLeft => r.button_left = m.pin,
                DpedalInput::ButtonRight => r.button_right = m.pin,
            }
            assert(remappings@.take(k + 1).drop_last() == remappings@.take(k as int));
            assert(remappings@.take(k + 1).last() == m);
            assert forall|i: DpedalInput| #[trigger] r.spec_pin(i) == remapped_pin(
                remappings@.take(k + 1),
                i,
            ) by {
                if i != m.input {
                    assert(r.spec_pin(i) == before.spec_pin(i));
                }
            }
            k = k + 1;
        }
        assert(remappings@.take(remappings@.len() as int) == remappings@);
        r
    }
}

} // verus!
