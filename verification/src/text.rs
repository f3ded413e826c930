//! Chat text: plain strings and translation keys with arguments, plus the
//! decimal rendering the messages embed numbers with.

use vstd::prelude::*;
use vstd::string::StringExecFns;

verus! {

/// A chat component: literal text, or a translation key applied to
/// arguments.
#[derive(PartialEq, Eq, Debug)]
pub enum TextComponent {
    Text(String),
    Translate { key: String, with: Vec<TextComponent> },
}

/// The decimal digit character for a value below ten.
pub open spec fn spec_digit(d: int) -> Seq<char> {
    if d == 0 {
        ("0")@
    } else if d == 1 {
        ("1")@
    } else if d == 2 {
        ("2")@
    } else if d == 3 {
        ("3")@
    } else if d == 4 {
        ("4")@
    } else if d == 5 {
        ("5")@
    } else if d == 6 {
        ("6")@
    } else if d == 7 {
        ("7")@
    } else if d == 8 {
        ("8")@
    } else {
        ("9")@
    }
}

/// The decimal rendering of a non-negative value.
pub open spec fn spec_u_dec(n: int) -> Seq<char>
    decreases n,
{
    if n < 10 {
        spec_digit(n)
    } else {
        spec_u_dec(n / 10) + spec_digit(n % 10)
    }
}

/// The decimal rendering of a signed value.
pub open spec fn spec_i_dec(n: int) -> Seq<char> {
    if n < 0 {
        ("-")@ + spec_u_dec(-n)
    } else {
        spec_u_dec(n)
    }
}

/// The digit character for a value below ten.
pub fn digit_str(d: u64) -> (r: &'static str)
    requires
        d < 10,
    ensures
        r@ == spec_digit(d as int),
{
    if d == 0 {
        "0"
    } else if d == 1 {
        "1"
    } else if d == 2 {
        "2"
    } else if d == 3 {
        "3"
    } else if d == 4 {
        "4"
    } else if d == 5 {
        "5"
    } else if d == 6 {
        "6"
    } else if d == 7 {
        "7"
    } else if d == 8 {
        "8"
    } else {
        "9"
    }
}

/// The decimal rendering of a non-negative value.
pub fn u64_to_string(n: u64) -> (r: String)
    ensures
        r@ == spec_u_dec(n as int),
    decreases n,
{
    if n < 10 {
        String::from_str(digit_str(n))
    } else {
        let mut s = u64_to_string(n / 10);
        s.append(digit_str(n % 10));
        s
    }
}

/// The decimal rendering of a signed value.
pub fn i64_to_string(n: i64) -> (r: String)
    ensures
        r@ == spec_i_dec(n as int),
{
    if n < 0 {
        proof {
            assert(-(n as int) == (-(n as i128)) as u64 as int) by {
                assert(0 < -(n as i128) <= 0x8000_0000_0000_0000i128);
            }
        }
        let mut s = String::from_str("-");
        let m: u64 = (-(n as i128)) as u64;
        let digits = u64_to_string(m);
        s.append(digits.as_str());
        s
    } else {
        u64_to_string(n as u64)
    }
}

impl TextComponent {
    /// A literal text component.
    pub fn text(s: &str) -> (r: TextComponent)
        ensures
            r is Text && r->Text_0@ == s@,
    {
        TextComponent::Text(String::from_str(s))
    }

    /// A translated component with arguments.
    pub fn translate(key: &str, with: Vec<TextComponent>) -> (r: TextComponent)
        ensures
            r is Translate,
            r->Translate_key@ == key@,
            r->Translate_with == with,
    {
        TextComponent::Translate { key: String::from_str(key), with }
    }
}

} // verus!
