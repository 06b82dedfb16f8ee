//! What the configuration form reads from its fields, before the request is sent.

use vstd::prelude::*;
use vstd::string::StrSliceExecFns;
use vstd::utf8::encode_utf8;

use crate::keys::KeyboardInput;
use crate::model::{ComputerInput, DPedalControl, MouseInput, MAX_NICKNAME_BYTES};
use crate::text::str_eq;

verus! {

/// The output that a row of the form selects: a kind (`mouse`, `keyboard` or `control`),
/// an action named as the variants are, and the magnitude field of a mouse action.
pub open spec fn spec_output_from_form(ty: Seq<char>, sub_ty: Seq<char>, field: Seq<char>) -> Option<
    ComputerInput,
> {
    if ty == "mouse"@ {
        match MouseInput::spec_from_string(sub_ty, field) {
            Some(m) => Some(ComputerInput::Mouse(m)),
            None => None,
        }
    } else if ty == "keyboard"@ {
        match KeyboardInput::spec_from_str(sub_ty) {
            Some(k) => Some(ComputerInput::Keyboard(k)),
            None => None,
        }
    } else if ty == "control"@ {
        if sub_ty == "DoNothing"@ {
            Some(ComputerInput::Control(DPedalControl::DoNothing))
        } else {
            None
        }
    } else {
        None
    }
}

pub fn output_from_form(ty: &str, sub_ty: &str, field: &str) -> (r: Option<ComputerInput>)
    ensures
        r == spec_output_from_form(ty@, sub_ty@, field@),
{
    if str_eq(ty, "mouse") {
        match MouseInput::from_string(sub_ty, field) {
            Some(m) => Some(ComputerInput::Mouse(m)),
            None => None,
        }
    } else if str_eq(ty, "keyboard") {
        match KeyboardInput::from_str(sub_ty) {
            Some(k) => Some(ComputerInput::Keyboard(k)),
            None => None,
        }
    } else if str_eq(ty, "control") {
        match DPedalControl::from_string(sub_ty) {
            Some(c) => Some(ComputerInput::Control(c)),
            None => None,
        }
    } else {
        None
    }
}

/// Whether a nickname fits its 50 bytes of UTF-8.
pub fn nickname_fits(name: &str) -> (r: bool)
    ensures
        r == (encode_utf8(name@).len() <= MAX_NICKNAME_BYTES),
{
    name.as_bytes().len() <= MAX_NICKNAME_BYTES
}

/// The value of a hexadecimal digit, either case.
pub open spec fn hex_value(c: char) -> Option<int> {
    if '0' <= c && c <= '9' {
        Some(c as int - '0' as int)
    } else if 'a' <= c && c <= 'f' {
        Some(c as int - 'a' as int + 10)
    } else if 'A' <= c && c <= 'F' {
        Some(c as int - 'A' as int + 10)
    } else {
        None
    }
}

/// The value of a run of hexadecimal digits, or `None` if one is not a digit.
pub open spec fn hex_digits_value(d: Seq<char>) -> Option<int>
    decreases d.len(),
{
    if d.len() == 0 {
        Some(0)
    } else {
        match (hex_digits_value(d.drop_last()), hex_value(d.last())) {
            (Some(v), Some(x)) => Some(v * 16 + x),
            _ => None,
        }
    }
}

/// A colour written `#` and one or more hexadecimal digits, within `u32`.
pub open spec fn spec_parse_color(s: Seq<char>) -> Option<u32> {
    if s.len() >= 2 && s[0] == '#' {
        match hex_digits_value(s.drop_first()) {
            Some(v) => if v <= u32::MAX {
                Some(v as u32)
            } else {
                None
            },
            None => None,
        }
    } else {
        None
    }
}

proof fn lemma_hex_value_grows(d: Seq<char>, k: int)
    requires
        0 <= k <= d.len(),
        hex_digits_value(d) is Some,
    ensures
        hex_digits_value(d.take(k)) is Some,
        0 <= hex_digits_value(d.take(k)).unwrap() <= hex_digits_value(d).unwrap(),
    decreases d.len(),
{
    if d.len() > 0 {
        let p = d.drop_last();
        lemma_hex_value_grows(p, p.len() as int);
        assert(p.take(p.len() as int) == p);
        if k == d.len() {
            assert(d.take(k) == d);
        } else {
            assert(d.take(k) == p.take(k));
            lemma_hex_value_grows(p, k);
        }
    } else {
        assert(d.take(k) == d);
    }
}

/// Reads the colour field of the form.
pub fn parse_color(s: &str) -> (r: Option<u32>)
    ensures
        r == spec_parse_color(s@),
{
    let n = s.unicode_len();
    if n < 2 || s.get_char(0) != '#' {
        return None;
    }
    let ghost d = s@.drop_first();
    let mut acc: u64 = 0;
    let mut i: usize = 1;
    while i < n
        invariant
            n == s@.len(),
            1 <= i <= n,
            d == s@.drop_first(),
            hex_digits_value(d.take(i - 1)) == Some(acc as int),
            acc <= u32::MAX,
        decreases n - i,
    {
        let c = s.get_char(i);
        let ghost k = i - 1;
        assert(d[k] == c);
        assert(d.take(k + 1).drop_last() == d.take(k));
        assert(d.take(k + 1).last() == c);
        let x: u64 = if c >= '0' && c <= '9' {
            (c as u32 - '0' as u32) as u64
        } else if c >= 'a' && c <= 'f' {
            (c as u32 - 'a' as u32 + 10) as u64
        } else if c >= 'A' && c <= 'F' {
            (c as u32 - 'A' as u32 + 10) as u64
        } else {
            proof {
                if hex_digits_value(d) is Some {
                    lemma_hex_value_grows(d, k + 1);
                }
            }
            return None;
        };
        acc = acc * 16 + x;
        i = i + 1;
        if acc > 0xffff_ffff {
            proof {
                if hex_digits_value(d) is Some {
                    lemma_hex_value_grows(d, k + 1);
                }
            }
            return None;
        }
    }
    assert(d.take(n - 1) == d);
    Some(acc as u32)
}

} // verus!
