//! The values that the configuration file reader builds before turning them into the
//! configuration model.

use vstd::prelude::*;
use vstd::string::StrSliceExecFns;

use crate::keys::KeyboardInput;
use crate::model::{ComputerInput, Device, DpedalInput, Mapping, MouseInput};
use crate::text::{
    find_arrow, find_arrow_from, find_char, find_char_from, kebab_to_pascal, pascal_from, str_eq,
    trim, trim_str,
};

verus! {

/// Turns a value read from a configuration file into its value in the model.
pub trait KdlConfigFinalize {
    type FinalizeType;

    fn finalize(&self) -> Self::FinalizeType;
}

/// The key named in kebab-case (`page-up` for `PageUp`), or `None`.
pub fn keyboard_from_string_kebab(s: &str) -> (r: Option<KeyboardInput>)
    ensures
        r == KeyboardInput::spec_from_str(pascal_from(s@, true)),
{
    let pascal = kebab_to_pascal(s);
    KeyboardInput::from_chars(pascal.as_slice())
}

/// A mapping as read from a configuration file.
#[derive(Clone, Debug)]
pub struct MappingKdl {
    pub input: Vec<DpedalInput>,
    pub output: Vec<ComputerInput>,
}

impl MappingKdl {
    /// The same mapping in the model.
    pub fn to_mapping(&self) -> (r: Mapping)
        ensures
            r.input@ == self.input@,
            r.output@ == self.output@,
    {
        Mapping { input: copy_inputs(&self.input), output: copy_outputs(&self.output) }
    }
}

impl KdlConfigFinalize for MappingKdl {
    type FinalizeType = Mapping;

    fn finalize(&self) -> Mapping {
        self.to_mapping()
    }
}

fn copy_inputs(v: &Vec<DpedalInput>) -> (r: Vec<DpedalInput>)
    ensures
        r@ == v@,
{
    let mut r: Vec<DpedalInput> = Vec::new();
    let mut i: usize = 0;
    while i < v.len()
        invariant
            i <= v@.len(),
            r@ == v@.take(i as int),
        decreases v.len() - i,
    {
        r.push(v[i]);
        assert(v@.take(i + 1) == v@.take(i as int).push(v@[i as int]));
        i = i + 1;
    }
    assert(v@.take(v@.len() as int) == v@);
    r
}

fn copy_outputs(v: &Vec<ComputerInput>) -> (r: Vec<ComputerInput>)
    ensures
        r@ == v@,
{
    let mut r: Vec<ComputerInput> = Vec::new();
    let mut i: usize = 0;
    while i < v.len()
        invariant
            i <= v@.len(),
            r@ == v@.take(i as int),
        decreases v.len() - i,
    {
        r.push(v[i]);
        assert(v@.take(i + 1) == v@.take(i as int).push(v@[i as int]));
        i = i + 1;
    }
    assert(v@.take(v@.len() as int) == v@);
    r
}

/// A physical input as named in a configuration file.
#[derive(Clone, Copy, Debug, PartialEq, Eq, Structural)]
pub enum DpedalInputKdl {
    DpadUp,
    DpadDown,
    DpadLeft,
    DpadRight,
    ButtonLeft,
    ButtonRight,
}

impl DpedalInputKdl {
    pub open spec fn spec_to_input(self) -> DpedalInput {
        match self {
            DpedalInputKdl::DpadUp => DpedalInput::DpadUp,
            DpedalInputKdl::DpadDown => DpedalInput::DpadDown,
            DpedalInputKdl::DpadLeft => DpedalInput::DpadLeft,
            DpedalInputKdl::DpadRight => DpedalInput::DpadRight,
            DpedalInputKdl::ButtonLeft => DpedalInput::ButtonLeft,
            DpedalInputKdl::ButtonRight => DpedalInput::ButtonRight,
        }
    }

    /// The same input in the model.
    pub fn to_input(&self) -> (r: DpedalInput)
        ensures
            r == self.spec_to_input(),
    {
        match self {
            DpedalInputKdl::DpadUp => DpedalInput::DpadUp,
            DpedalInputKdl::DpadDown => DpedalInput::DpadDown,
            DpedalInputKdl::DpadLeft => DpedalInput::DpadLeft,
            DpedalInputKdl::DpadRight => DpedalInput::DpadRight,
            DpedalInputKdl::ButtonLeft => DpedalInput::ButtonLeft,
            DpedalInputKdl::ButtonRight => DpedalInput::ButtonRight,
        }
    }
}

impl KdlConfigFinalize for DpedalInputKdl {
    type FinalizeType = DpedalInput;

    fn finalize(&self) -> DpedalInput {
        self.to_input()
    }
}

/// A device kind as named in a configuration file.
#[derive(Clone, Copy, Debug, PartialEq, Eq, Structural)]
pub enum DeviceKdl {
    Dpedal,
}

impl KdlConfigFinalize for DeviceKdl {
    type FinalizeType = Device;

    fn finalize(&self) -> Device {
        match self {
            DeviceKdl::Dpedal => Device::Dpedal,
        }
    }
}

/// Why the text of a mapping could not be read.
#[derive(Clone, Copy, Debug, PartialEq, Eq, Structural)]
pub enum MappingTextError {
    /// There is no `->` between input and output.
    NoArrow,
    /// The input is not a known input in kebab-case.
    UnknownInput,
    /// The output is not `mouse-<action>` or `keyboard-<key>` with a known action or key.
    UnknownOutput,
}

/// An output written `mouse-<action>` (magnitude ten) or `keyboard-<key>`, in kebab-case.
pub open spec fn spec_output_of(out: Seq<char>) -> Option<ComputerInput> {
    match find_char(out, '-') {
        None => None,
        Some(d) => {
            let ty = out.take(d);
            let sub = out.skip(d + 1);
            if ty == "mouse"@ {
                match MouseInput::spec_from_string(sub, "10"@) {
                    Some(m) => Some(ComputerInput::Mouse(m)),
                    None => None,
                }
            } else if ty == "keyboard"@ {
                match KeyboardInput::spec_from_str(pascal_from(sub, true)) {
                    Some(k) => Some(ComputerInput::Keyboard(k)),
                    None => None,
                }
            } else {
                None
            }
        },
    }
}

/// A mapping written `input -> output`: the text before the first `->` is the input, the
/// text after it (up to a second `->`, if any) is the output, both trimmed.
pub open spec fn spec_parse_mapping(s: Seq<char>) -> Result<
    (DpedalInput, ComputerInput),
    MappingTextError,
> {
    match find_arrow(s) {
        None => Err(MappingTextError::NoArrow),
        Some(a) => {
            let input = trim(s.take(a));
            let rest = s.skip(a + 2);
            let output = trim(
                match find_arrow(rest) {
                    Some(b) => rest.take(b),
                    None => rest,
                },
            );
            match DpedalInput::spec_from_string_kebab(input) {
                None => Err(MappingTextError::UnknownInput),
                Some(i) => match spec_output_of(output) {
                    None => Err(MappingTextError::UnknownOutput),
                    Some(o) => Ok((i, o)),
                },
            }
        },
    }
}

fn output_of(out: &str) -> (r: Option<ComputerInput>)
    ensures
        r == spec_output_of(out@),
{
    let n = out.unicode_len();
    let d = match find_char_from(out, '-', 0) {
        None => {
            assert(out@.skip(0) == out@);
            return None;
        },
        Some(d) => d,
    };
    assert(out@.skip(0) == out@);
    let ty = out.substring_char(0, d);
    let sub = out.substring_char(d + 1, n);
    assert(ty@ == out@.take(d as int));
    assert(sub@ == out@.skip(d + 1));
    if str_eq(ty, "mouse") {
        match MouseInput::from_string(sub, "10") {
            Some(m) => Some(ComputerInput::Mouse(m)),
            None => None,
        }
    } else if str_eq(ty, "keyboard") {
        match keyboard_from_string_kebab(sub) {
            Some(k) => Some(ComputerInput::Keyboard(k)),
            None => None,
        }
    } else {
        None
    }
}

impl MappingKdl {
    /// Reads the text of a mapping, `input -> output`, as a configuration file writes it.
    pub fn parse_text(s: &str) -> (r: Result<MappingKdl, MappingTextError>)
        ensures
            match r {
                Ok(m) => match spec_parse_mapping(s@) {
                    Ok((i, o)) => m.input@ == seq![i] && m.output@ == seq![o],
                    Err(_) => false,
                },
                Err(e) => spec_parse_mapping(s@) == Err::<(DpedalInput, ComputerInput), MappingTextError>(e),
            },
    {
        let n = s.unicode_len();
        assert(s@.skip(0) == s@);
        let a = match find_arrow_from(s, 0) {
            None => return Err(MappingTextError::NoArrow),
            Some(a) => a,
        };
        let input = trim_str(s.substring_char(0, a));
        assert(s@.subrange(0, a as int) == s@.take(a as int));
        let rest = s.substring_char(a + 2, n);
        assert(rest@ == s@.skip(a + 2));
        let rn = rest.unicode_len();
        assert(rest@.skip(0) == rest@);
        let output = match find_arrow_from(rest, 0) {
            Some(b) => {
                assert(rest@.subrange(0, b as int) == rest@.take(b as int));
                trim_str(rest.substring_char(0, b))
            },
            None => {
                assert(rest@.subrange(0, rn as int) == rest@);
                trim_str(rest.substring_char(0, rn))
            },
        };
        let i = match DpedalInput::from_string_kebab(input) {
            None => return Err(MappingTextError::UnknownInput),
            Some(i) => i,
        };
        let o = match output_of(output) {
            None => return Err(MappingTextError::UnknownOutput),
            Some(o) => o,
        };
        let m = MappingKdl { input: vec![i], output: vec![o] };
        assert(m.input@ == seq![i]);
        assert(m.output@ == seq![o]);
        Ok(m)
    }
}

} // verus!
