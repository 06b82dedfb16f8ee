//! The configuration model: what the pedal sends for which combination of inputs.

use vstd::prelude::*;
use vstd::string::StrSliceExecFns;
use vstd::string::StringExecFns;
use vstd::utf8::encode_utf8;

use crate::keys::KeyboardInput;
use crate::text::{parse_i16, spec_parse_i16, str_eq};

verus! {

/// Longest nickname, in bytes of UTF-8.
pub const MAX_NICKNAME_BYTES: usize = 50;

/// Most profiles that a configuration holds.
pub const MAX_PROFILES: usize = 2;

/// Most mappings that a profile holds.
pub const MAX_MAPPINGS: usize = 20;

/// Most inputs in the combination of one mapping.
pub const MAX_COMBO_INPUTS: usize = 4;

/// Most outputs that one mapping sends.
pub const MAX_OUTPUTS: usize = 20;

/// Most pin remappings that a configuration holds.
pub const MAX_PIN_REMAPPINGS: usize = 6;

/// The whole configuration of a pedal.
#[derive(Clone, Debug)]
pub struct Config {
    pub version: u32,
    pub nickname: String,
    pub device: Device,
    pub color: u32,
    pub profiles: Vec<Profile>,
    pub pin_remappings: Vec<PinRemapping>,
}

/// The kind of device that a configuration is for.
#[derive(Clone, Copy, Debug, PartialEq, Eq, Structural)]
pub enum Device {
    Dpedal,
}

/// Moves one physical input to another GPIO pin.
#[derive(Clone, Copy, Debug, PartialEq, Eq, Structural)]
pub struct PinRemapping {
    pub input: DpedalInput,
    pub pin: u32,
}

/// A table of mappings; the first profile is the active one.
#[derive(Clone, Debug)]
pub struct Profile {
    pub mappings: Vec<Mapping>,
}

/// Sends `output` while every input of `input` is held.
#[derive(Clone, Debug)]
pub struct Mapping {
    pub input: Vec<DpedalInput>,
    pub output: Vec<ComputerInput>,
}

/// One of the six physical inputs of the pedal.
#[derive(Clone, Copy, Debug, PartialEq, Eq, Structural, Hash)]
pub enum DpedalInput {
    DpadUp,
    DpadDown,
    DpadLeft,
    DpadRight,
    ButtonLeft,
    ButtonRight,
}

/// What a mapping sends to the computer; `Nothing` sends nothing.
#[derive(Clone, Copy, Debug, PartialEq, Eq, Structural)]
pub enum ComputerInput {
    Nothing,
    Mouse(MouseInput),
    Keyboard(KeyboardInput),
    Control(DPedalControl),
}

/// A mouse action; the directional ones carry a magnitude.
#[derive(Clone, Copy, Debug, PartialEq, Eq, Structural)]
pub enum MouseInput {
    ScrollUp(i16),
    ScrollDown(i16),
    ScrollRight(i16),
    ScrollLeft(i16),
    MoveUp(i16),
    MoveDown(i16),
    MoveRight(i16),
    MoveLeft(i16),
    ClickLeft,
    ClickMiddle,
    ClickRight,
}

/// An action on the pedal itself.
#[derive(Clone, Copy, Debug, PartialEq, Eq, Structural)]
pub enum DPedalControl {
    DoNothing,
}

impl Mapping {
    /// The combination holds at most four distinct inputs and there are at most twenty outputs.
    pub open spec fn within_limits(&self) -> bool {
        &&& self.input@.len() <= MAX_COMBO_INPUTS
        &&& self.input@.no_duplicates()
        &&& self.output@.len() <= MAX_OUTPUTS
    }

    pub fn check_limits(&self) -> (r: bool)
        ensures
            r == self.within_limits(),
    {
        if self.input.len() > MAX_COMBO_INPUTS || self.output.len() > MAX_OUTPUTS {
            return false;
        }
        let mut i: usize = 0;
        while i < self.input.len()
            invariant
                i <= self.input@.len(),
                forall|a: int, b: int|
                    0 <= a < i && 0 <= b < self.input@.len() && a != b ==> self.input@[a]
                        != self.input@[b],
            decreases self.input.len() - i,
        {
            let mut j: usize = 0;
            while j < self.input.len()
                invariant
                    i < self.input@.len(),
                    j <= self.input@.len(),
                    forall|a: int, b: int|
                        0 <= a < i && 0 <= b < self.input@.len() && a != b ==> self.input@[a]
                            != self.input@[b],
                    forall|b: int| 0 <= b < j && b != i ==> self.input@[i as int] != self.input@[b],
                decreases self.input.len() - j,
            {
                if j != i && self.input[i] == self.input[j] {
                    return false;
                }
                j = j + 1;
            }
            i = i + 1;
        }
        true
    }
}

impl Profile {
    pub open spec fn within_limits(&self) -> bool {
        &&& self.mappings@.len() <= MAX_MAPPINGS
        &&& forall|i: int| 0 <= i < self.mappings@.len() ==> #[trigger] self.mappings@[i].within_limits()
    }

    pub fn check_limits(&self) -> (r: bool)
        ensures
            r == self.within_limits(),
    {
        if self.mappings.len() > MAX_MAPPINGS {
            return false;
        }
        let mut i: usize = 0;
        while i < self.mappings.len()
            invariant
                i <= self.mappings@.len(),
                forall|j: int| 0 <= j < i ==> #[trigger] self.mappings@[j].within_limits(),
            decreases self.mappings.len() - i,
        {
            if !self.mappings[i].check_limits() {
                return false;
            }
            i = i + 1;
        }
        true
    }
}

impl Config {
    /// Every list of the configuration is within its capacity.
    pub open spec fn within_limits(&self) -> bool {
        &&& encode_utf8(self.nickname@).len() <= MAX_NICKNAME_BYTES
        &&& self.profiles@.len() <= MAX_PROFILES
        &&& self.pin_remappings@.len() <= MAX_PIN_REMAPPINGS
        &&& forall|i: int| 0 <= i < self.profiles@.len() ==> #[trigger] self.profiles@[i].within_limits()
    }

    pub fn check_limits(&self) -> (r: bool)
        ensures
            r == self.within_limits(),
    {
        let name = self.nickname.as_str();
        let name_bytes = name.as_bytes().len();
        if name_bytes > MAX_NICKNAME_BYTES || self.profiles.len() > MAX_PROFILES
            || self.pin_remappings.len() > MAX_PIN_REMAPPINGS {
            return false;
        }
        let mut i: usize = 0;
        while i < self.profiles.len()
            invariant
                i <= self.profiles@.len(),
                forall|j: int| 0 <= j < i ==> #[trigger] self.profiles@[j].within_limits(),
            decreases self.profiles.len() - i,
        {
            if !self.profiles[i].check_limits() {
                return false;
            }
            i = i + 1;
        }
        true
    }
}
impl DpedalInput {
    /// The input named `s` in PascalCase, as the variants are named.
    pub open spec fn spec_from_string(s: Seq<char>) -> Option<DpedalInput> {
        if s == "DpadUp"@ {
            Some(DpedalInput::DpadUp)
        } else if s == "DpadDown"@ {
            Some(DpedalInput::DpadDown)
        } else if s == "DpadLeft"@ {
            Some(DpedalInput::DpadLeft)
        } else if s == "DpadRight"@ {
            Some(DpedalInput::DpadRight)
        } else if s == "ButtonLeft"@ {
            Some(DpedalInput::ButtonLeft)
        } else if s == "ButtonRight"@ {
            Some(DpedalInput::ButtonRight)
        } else {
            None
        }
    }

    pub fn from_string(s: &str) -> (r: Option<DpedalInput>)
        ensures
            r == Self::spec_from_string(s@),
    {
        if str_eq(s, "DpadUp") {
            Some(DpedalInput::DpadUp)
        } else if str_eq(s, "DpadDown") {
            Some(DpedalInput::DpadDown)
        } else if str_eq(s, "DpadLeft") {
            Some(DpedalInput::DpadLeft)
        } else if str_eq(s, "DpadRight") {
            Some(DpedalInput::DpadRight)
        } else if str_eq(s, "ButtonLeft") {
            Some(DpedalInput::ButtonLeft)
        } else if str_eq(s, "ButtonRight") {
            Some(DpedalInput::ButtonRight)
        } else {
            None
        }
    }

    /// The input named `s` in kebab-case, as configuration files write it.
    pub open spec fn spec_from_string_kebab(s: Seq<char>) -> Option<DpedalInput> {
        if s == "dpad-up"@ {
            Some(DpedalInput::DpadUp)
        } else if s == "dpad-down"@ {
            Some(DpedalInput::DpadDown)
        } else if s == "dpad-left"@ {
            Some(DpedalInput::DpadLeft)
        } else if s == "dpad-right"@ {
            Some(DpedalInput::DpadRight)
        } else if s == "button-left"@ {
            Some(DpedalInput::ButtonLeft)
        } else if s == "button-right"@ {
            Some(DpedalInput::ButtonRight)
        } else {
            None
        }
    }

    pub fn from_string_kebab(s: &str) -> (r: Option<DpedalInput>)
        ensures
            r == Self::spec_from_string_kebab(s@),
    {
        if str_eq(s, "dpad-up") {
            Some(DpedalInput::DpadUp)
        } else if str_eq(s, "dpad-down") {
            Some(DpedalInput::DpadDown)
        } else if str_eq(s, "dpad-left") {
            Some(DpedalInput::DpadLeft)
        } else if str_eq(s, "dpad-right") {
            Some(DpedalInput::DpadRight)
        } else if str_eq(s, "button-left") {
            Some(DpedalInput::ButtonLeft)
        } else if str_eq(s, "button-right") {
            Some(DpedalInput::ButtonRight)
        } else {
            None
        }
    }
}

/// The kinds of mouse action, without their magnitude.
pub enum MouseKind {
    ScrollUp,
    ScrollDown,
    ScrollRight,
    ScrollLeft,
    MoveUp,
    MoveDown,
    MoveRight,
    MoveLeft,
    ClickLeft,
    ClickMiddle,
    ClickRight,
}

impl MouseInput {
    /// The kind named `s`, in PascalCase or in kebab-case.
    pub open spec fn spec_kind(s: Seq<char>) -> Option<MouseKind> {
        if s == "ScrollUp"@ || s == "scroll-up"@ {
            Some(MouseKind::ScrollUp)
        } else if s == "ScrollDown"@ || s == "scroll-down"@ {
            Some(MouseKind::ScrollDown)
        } else if s == "ScrollRight"@ || s == "scroll-right"@ {
            Some(MouseKind::ScrollRight)
        } else if s == "ScrollLeft"@ || s == "scroll-left"@ {
            Some(MouseKind::ScrollLeft)
        } else if s == "MoveUp"@ || s == "move-up"@ {
            Some(MouseKind::MoveUp)
        } else if s == "MoveDown"@ || s == "move-down"@ {
            Some(MouseKind::MoveDown)
        } else if s == "MoveRight"@ || s == "move-right"@ {
            Some(MouseKind::MoveRight)
        } else if s == "MoveLeft"@ || s == "move-left"@ {
            Some(MouseKind::MoveLeft)
        } else if s == "ClickLeft"@ || s == "click-left"@ {
            Some(MouseKind::ClickLeft)
        } else if s == "ClickMiddle"@ || s == "click-middle"@ {
            Some(MouseKind::ClickMiddle)
        } else if s == "ClickRight"@ || s == "click-right"@ {
            Some(MouseKind::ClickRight)
        } else {
            None
        }
    }

    /// The action of kind `kind`; a directional one takes `value` as its magnitude.
    pub open spec fn spec_with_value(kind: MouseKind, value: Option<i16>) -> Option<MouseInput> {
        match kind {
            MouseKind::ClickLeft => Some(MouseInput::ClickLeft),
            MouseKind::ClickMiddle => Some(MouseInput::ClickMiddle),
            MouseKind::ClickRight => Some(MouseInput::ClickRight),
            _ => match value {
                None => None,
                Some(v) => Some(
                    match kind {
                        MouseKind::ScrollUp => MouseInput::ScrollUp(v),
                        MouseKind::ScrollDown => MouseInput::ScrollDown(v),
                        MouseKind::ScrollRight => MouseInput::ScrollRight(v),
                        MouseKind::ScrollLeft => MouseInput::ScrollLeft(v),
                        MouseKind::MoveUp => MouseInput::MoveUp(v),
                        MouseKind::MoveDown => MouseInput::MoveDown(v),
                        MouseKind::MoveRight => MouseInput::MoveRight(v),
                        _ => MouseInput::MoveLeft(v),
                    },
                ),
            },
        }
    }

    /// The action named `s` with magnitude `value` read as a decimal `i16`.
    pub open spec fn spec_from_string(s: Seq<char>, value: Seq<char>) -> Option<MouseInput> {
        match Self::spec_kind(s) {
            None => None,
            Some(kind) => Self::spec_with_value(kind, spec_parse_i16(value)),
        }
    }

    fn kind_of(s: &str) -> (r: Option<MouseKind>)
        ensures
            r == Self::spec_kind(s@),
    {
        if str_eq(s, "ScrollUp") || str_eq(s, "scroll-up") {
            Some(MouseKind::ScrollUp)
        } else if str_eq(s, "ScrollDown") || str_eq(s, "scroll-down") {
            Some(MouseKind::ScrollDown)
        } else if str_eq(s, "ScrollRight") || str_eq(s, "scroll-right") {
            Some(MouseKind::ScrollRight)
        } else if str_eq(s, "ScrollLeft") || str_eq(s, "scroll-left") {
            Some(MouseKind::ScrollLeft)
        } else if str_eq(s, "MoveUp") || str_eq(s, "move-up") {
            Some(MouseKind::MoveUp)
        } else if str_eq(s, "MoveDown") || str_eq(s, "move-down") {
            Some(MouseKind::MoveDown)
        } else if str_eq(s, "MoveRight") || str_eq(s, "move-right") {
            Some(MouseKind::MoveRight)
        } else if str_eq(s, "MoveLeft") || str_eq(s, "move-left") {
            Some(MouseKind::MoveLeft)
        } else if str_eq(s, "ClickLeft") || str_eq(s, "click-left") {
            Some(MouseKind::ClickLeft)
        } else if str_eq(s, "ClickMiddle") || str_eq(s, "click-middle") {
            Some(MouseKind::ClickMiddle)
        } else if str_eq(s, "ClickRight") || str_eq(s, "click-right") {
            Some(MouseKind::ClickRight)
        } else {
            None
        }
    }

    pub fn from_string(s: &str, value: &str) -> (r: Option<MouseInput>)
        ensures
            r == Self::spec_from_string(s@, value@),
    {
        let kind = match Self::kind_of(s) {
            None => return None,
            Some(kind) => kind,
        };
        match kind {
            MouseKind::ClickLeft => return Some(MouseInput::ClickLeft),
            MouseKind::ClickMiddle => return Some(MouseInput::ClickMiddle),
            MouseKind::ClickRight => return Some(MouseInput::ClickRight),
            _ => {},
        }
        let v = match parse_i16(value) {
            None => return None,
            Some(v) => v,
        };
        Some(
            match kind {
                MouseKind::ScrollUp => MouseInput::ScrollUp(v),
                MouseKind::ScrollDown => MouseInput::ScrollDown(v),
                MouseKind::ScrollRight => MouseInput::ScrollRight(v),
                MouseKind::ScrollLeft => MouseInput::ScrollLeft(v),
                MouseKind::MoveUp => MouseInput::MoveUp(v),
                MouseKind::MoveDown => MouseInput::MoveDown(v),
                MouseKind::MoveRight => MouseInput::MoveRight(v),
                _ => MouseInput::MoveLeft(v),
            },
        )
    }
}

impl DPedalControl {
    pub fn from_string(s: &str) -> (r: Option<DPedalControl>)
        ensures
            r == (if s@ == "DoNothing"@ {
                Some(DPedalControl::DoNothing)
            } else {
                None
            }),
    {
        if str_eq(s, "DoNothing") {
            Some(DPedalControl::DoNothing)
        } else {
            None
        }
    }
}

/// A mapping from one input to one output.
pub open spec fn single_mapping(m: Mapping, input: DpedalInput, output: ComputerInput) -> bool {
    m.input@ == seq![input] && m.output@ == seq![output]
}

fn single(input: DpedalInput, output: ComputerInput) -> (r: Mapping)
    ensures
        single_mapping(r, input, output),
{
    let r = Mapping { input: vec![input], output: vec![output] };
    assert(r.input@ == seq![input]);
    assert(r.output@ == seq![output]);
    r
}

impl Config {
    /// The configuration that a pedal uses when its flash holds none.
    pub open spec fn is_factory_default(&self) -> bool {
        &&& self.version == 0
        &&& self.nickname@ == "my DPedal"@
        &&& self.device == Device::Dpedal
        &&& self.color == 0x1790e3
        &&& self.pin_remappings@.len() == 0
        &&& self.profiles@.len() == 1
        &&& {
            let m = self.profiles@[0].mappings@;
            &&& m.len() == 6
            &&& single_mapping(
                m[0],
                DpedalInput::DpadLeft,
                ComputerInput::Mouse(MouseInput::ScrollLeft(10)),
            )
            &&& single_mapping(
                m[1],
                DpedalInput::DpadRight,
                ComputerInput::Mouse(MouseInput::ScrollRight(10)),
            )
            &&& single_mapping(
                m[2],
                DpedalInput::DpadUp,
                ComputerInput::Mouse(MouseInput::ScrollUp(10)),
            )
            &&& single_mapping(
                m[3],
                DpedalInput::DpadDown,
                ComputerInput::Mouse(MouseInput::ScrollDown(10)),
            )
            &&& single_mapping(
                m[4],
                DpedalInput::ButtonLeft,
                ComputerInput::Keyboard(KeyboardInput::PageUp),
            )
            &&& single_mapping(
                m[5],
                DpedalInput::ButtonRight,
                ComputerInput::Keyboard(KeyboardInput::PageDown),
            )
        }
    }
}

impl Default for Config {
    fn default() -> (r: Config)
        ensures
            r.is_factory_default(),
    {
        let mappings = vec![
            single(DpedalInput::DpadLeft, ComputerInput::Mouse(MouseInput::ScrollLeft(10))),
            single(DpedalInput::DpadRight, ComputerInput::Mouse(MouseInput::ScrollRight(10))),
            single(DpedalInput::DpadUp, ComputerInput::Mouse(MouseInput::ScrollUp(10))),
            single(DpedalInput::DpadDown, ComputerInput::Mouse(MouseInput::ScrollDown(10))),
            single(DpedalInput::ButtonLeft, ComputerInput::Keyboard(KeyboardInput::PageUp)),
            single(DpedalInput::ButtonRight, ComputerInput::Keyboard(KeyboardInput::PageDown)),
        ];
        Config {
            version: 0,
            nickname: String::from_str("my DPedal"),
            device: Device::Dpedal,
            color: 0x1790e3,
            profiles: vec![Profile { mappings }],
            pin_remappings: Vec::new(),
        }
    }
}

} // verus!
