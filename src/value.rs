//! Typed values of a query result.

use vstd::prelude::*;
use vstd::arithmetic::power2::{pow2, lemma2_to64, lemma2_to64_rest, lemma_pow2_strictly_increases};
use vstd::bits::{lemma_u64_shl_is_mul, lemma_u64_shr_is_div};

use crate::text::{lower_of, lowercase, same_text};

verus! {

/// A value of a query result. Values read from the server are always `String`
/// or `Null`; the other variants come from explicit conversions.
///
/// A 64-bit float is held as its IEEE-754 bit pattern.
#[derive(Debug, Clone)]
pub enum Value {
    Null,
    Bool(bool),
    Integer(i64),
    Float(u64),
    String(String),
    Bytes(Vec<u8>),
}

/// The mathematical form of a `Value`.
pub ghost enum ValueView {
    Null,
    Bool(bool),
    Integer(i64),
    Float(u64),
    Text(Seq<char>),
    Bytes(Seq<u8>),
}

impl View for Value {
    type V = ValueView;

    open spec fn view(&self) -> ValueView {
        match self {
            Value::Null => ValueView::Null,
            Value::Bool(b) => ValueView::Bool(*b),
            Value::Integer(i) => ValueView::Integer(*i),
            Value::Float(f) => ValueView::Float(*f),
            Value::String(s) => ValueView::Text(s@),
            Value::Bytes(b) => ValueView::Bytes(b@),
        }
    }
}

impl Default for Value {
    fn default() -> (r: Value)
        ensures
            r is Null,
    {
        Value::Null
    }
}

impl From<String> for Value {
    fn from(s: String) -> Value {
        Value::String(s)
    }
}

impl vstd::std_specs::convert::FromSpecImpl<String> for Value {
    open spec fn obeys_from_spec() -> bool {
        true
    }

    open spec fn from_spec(s: String) -> Value {
        Value::String(s)
    }
}

impl From<bool> for Value {
    fn from(b: bool) -> Value {
        Value::Bool(b)
    }
}

impl vstd::std_specs::convert::FromSpecImpl<bool> for Value {
    open spec fn obeys_from_spec() -> bool {
        true
    }

    open spec fn from_spec(b: bool) -> Value {
        Value::Bool(b)
    }
}

impl From<i64> for Value {
    fn from(i: i64) -> Value {
        Value::Integer(i)
    }
}

impl vstd::std_specs::convert::FromSpecImpl<i64> for Value {
    open spec fn obeys_from_spec() -> bool {
        true
    }

    open spec fn from_spec(i: i64) -> Value {
        Value::Integer(i)
    }
}

impl From<i32> for Value {
    fn from(i: i32) -> Value {
        Value::Integer(i as i64)
    }
}

impl vstd::std_specs::convert::FromSpecImpl<i32> for Value {
    open spec fn obeys_from_spec() -> bool {
        true
    }

    open spec fn from_spec(i: i32) -> Value {
        Value::Integer(i as i64)
    }
}

impl From<Vec<u8>> for Value {
    fn from(b: Vec<u8>) -> Value {
        Value::Bytes(b)
    }
}

impl vstd::std_specs::convert::FromSpecImpl<Vec<u8>> for Value {
    open spec fn obeys_from_spec() -> bool {
        true
    }

    open spec fn from_spec(b: Vec<u8>) -> Value {
        Value::Bytes(b)
    }
}

/// The truth value that a lower-case word stands for.
pub open spec fn bool_of_word(w: Seq<char>) -> Option<bool> {
    if w == "true"@ || w == "t"@ || w == "yes"@ || w == "y"@ || w == "1"@ {
        Some(true)
    } else if w == "false"@ || w == "f"@ || w == "no"@ || w == "n"@ || w == "0"@ {
        Some(false)
    } else {
        None
    }
}

/// Whether every character of `d` is an ASCII digit.
pub open spec fn all_digits(d: Seq<char>) -> bool {
    forall|i: int| 0 <= i < d.len() ==> '0' <= #[trigger] d[i] <= '9'
}

/// The number that a string of ASCII digits writes in base ten.
pub open spec fn digits_value(d: Seq<char>) -> int
    decreases d.len(),
{
    if d.len() == 0 {
        0
    } else {
        digits_value(d.drop_last()) * 10 + ((d.last() as u32) as int - 48)
    }
}

/// The integer that `s` writes: an optional `+` or `-`, then one or more ASCII
/// digits, with a value in the range of `i64`; `None` for any other text.
pub open spec fn decimal_i64(s: Seq<char>) -> Option<i64> {
    let signed = s.len() > 0 && (s[0] == '-' || s[0] == '+');
    let d = if signed {
        s.drop_first()
    } else {
        s
    };
    let v = if signed && s[0] == '-' {
        -digits_value(d)
    } else {
        digits_value(d)
    };
    if d.len() > 0 && all_digits(d) && i64::MIN <= v <= i64::MAX {
        Some(v as i64)
    } else {
        None
    }
}

/// Relies on `str::parse::<i64>` (`i64::from_str`): it accepts an optional sign
/// followed by digits, and fails on anything else or on overflow.
#[verifier::external_body]
fn parse_i64(s: &str) -> (r: Option<i64>)
    ensures
        r == decimal_i64(s@),
{
    s.parse::<i64>().ok()
}

/// The exponent field of a 64-bit float's bit pattern.
pub open spec fn float_exponent(bits: u64) -> u64 {
    (bits >> 52u64) & 0x7ffu64
}

/// The fraction field of a 64-bit float's bit pattern.
pub open spec fn float_fraction(bits: u64) -> u64 {
    bits & 0xf_ffff_ffff_ffffu64
}

/// Whether the sign bit of a 64-bit float's bit pattern is set.
pub open spec fn float_is_negative(bits: u64) -> bool {
    (bits >> 63u64) == 1u64
}

/// The absolute value of a normal float, truncated toward zero.
pub open spec fn float_trunc_magnitude(bits: u64) -> int {
    let m = float_fraction(bits) + pow2(52);
    let e = float_exponent(bits) as int - 1075;
    if e >= 0 {
        m * pow2(e as nat)
    } else {
        m / (pow2((-e) as nat) as int)
    }
}

/// A float converted to `i64` as Rust's `as` does: truncated toward zero,
/// saturated at the bounds of `i64`, and 0 for NaN.
pub open spec fn float_to_i64(bits: u64) -> i64 {
    if float_exponent(bits) == 0x7ff && float_fraction(bits) != 0 {
        0
    } else if float_exponent(bits) < 1023 {
        0
    } else {
        let mag = float_trunc_magnitude(bits);
        if float_is_negative(bits) {
            if mag >= 0x8000_0000_0000_0000 {
                i64::MIN
            } else {
                (-mag) as i64
            }
        } else {
            if mag > i64::MAX {
                i64::MAX
            } else {
                mag as i64
            }
        }
    }
}

/// Converts the float with bit pattern `bits` to `i64`: truncated toward zero,
/// saturated at the bounds of `i64`, 0 for NaN.
pub fn float_bits_to_i64(bits: u64) -> (r: i64)
    ensures
        r == float_to_i64(bits),
{
    let exp = (bits >> 52u64) & 0x7ffu64;
    let frac = bits & 0xf_ffff_ffff_ffffu64;
    let neg = (bits >> 63u64) == 1u64;
    if exp == 0x7ff && frac != 0 {
        return 0;
    }
    if exp < 1023 {
        return 0;
    }
    proof {
        assert(exp <= 0x7ff) by (bit_vector)
            requires
                exp == (bits >> 52u64) & 0x7ffu64,
        ;
        assert(frac <= 0xf_ffff_ffff_ffff) by (bit_vector)
            requires
                frac == bits & 0xf_ffff_ffff_ffffu64,
        ;
        lemma2_to64();
        lemma2_to64_rest();
    }
    let m: u64 = frac + 0x10_0000_0000_0000;
    if exp >= 1086 {
        proof {
            let e = (exp - 1075) as nat;
            if e > 11 {
                lemma_pow2_strictly_increases(11, e);
            }
            assert(m * pow2(e) >= 0x10_0000_0000_0000 * 2048) by (nonlinear_arith)
                requires
                    m >= 0x10_0000_0000_0000,
                    pow2(e) >= 2048,
            ;
        }
        if neg {
            return i64::MIN;
        } else {
            return i64::MAX;
        }
    }
    let mag: u64;
    if exp >= 1075 {
        let k: u64 = exp - 1075;
        proof {
            if k < 10 {
                lemma_pow2_strictly_increases(k as nat, 10);
            }
            assert(m * pow2(k as nat) < 0x20_0000_0000_0000 * 1024) by (nonlinear_arith)
                requires
                    m < 0x20_0000_0000_0000,
                    pow2(k as nat) <= 1024,
                    pow2(k as nat) > 0,
            ;
            lemma_u64_shl_is_mul(m, k);
        }
        mag = m << k;
    } else {
        let k: u64 = 1075 - exp;
        proof {
            lemma_u64_shr_is_div(m, k);
            assert((m as int) / (pow2(k as nat) as int) <= m as int) by (nonlinear_arith)
                requires
                    pow2(k as nat) > 0,
            ;
        }
        mag = m >> k;
    }
    if neg {
        -(mag as i64)
    } else {
        mag as i64
    }
}

impl Value {
    /// The text held by a `String` value.
    pub fn as_str(&self) -> (r: Option<&str>)
        ensures
            match self@ {
                ValueView::Text(t) => r is Some && r.unwrap()@ == t,
                _ => r is None,
            },
    {
        match self {
            Value::String(s) => Some(s.as_str()),
            _ => None,
        }
    }

    /// The truth value that an already lower-cased word stands for: "true",
    /// "t", "yes", "y" and "1" stand for true; "false", "f", "no", "n" and "0"
    /// for false; any other word for none.
    pub fn bool_of_lowercase(word: &str) -> (r: Option<bool>)
        ensures
            r == bool_of_word(word@),
    {
        if same_text(word, "true") || same_text(word, "t") || same_text(word, "yes") || same_text(
            word,
            "y",
        ) || same_text(word, "1") {
            Some(true)
        } else if same_text(word, "false") || same_text(word, "f") || same_text(word, "no")
            || same_text(word, "n") || same_text(word, "0") {
            Some(false)
        } else {
            None
        }
    }

    /// The value as a boolean: a `Bool` as it is, a `String` by the word it
    /// holds (compared without regard to case), anything else none.
    pub fn as_bool(&self) -> (r: Option<bool>)
        ensures
            match self@ {
                ValueView::Bool(b) => r == Some(b),
                ValueView::Text(t) => r == bool_of_word(lower_of(t)),
                _ => r is None,
            },
    {
        match self {
            Value::Bool(b) => Some(*b),
            Value::String(s) => {
                let lower = lowercase(s.as_str());
                Value::bool_of_lowercase(lower.as_str())
            },
            _ => None,
        }
    }

    /// The value as an `i64`: an `Integer` as it is, a `Float` truncated toward
    /// zero (saturated, NaN as 0), a `String` by the integer it writes,
    /// anything else none.
    pub fn as_i64(&self) -> (r: Option<i64>)
        ensures
            match self@ {
                ValueView::Integer(i) => r == Some(i),
                ValueView::Float(bits) => r == Some(float_to_i64(bits)),
                ValueView::Text(t) => r == decimal_i64(t),
                _ => r is None,
            },
    {
        match self {
            Value::Integer(i) => Some(*i),
            Value::Float(bits) => Some(float_bits_to_i64(*bits)),
            Value::String(s) => parse_i64(s.as_str()),
            _ => None,
        }
    }

    /// Whether the value is `Null`.
    pub fn is_null(&self) -> (r: bool)
        ensures
            r == (self@ is Null),
    {
        match self {
            Value::Null => true,
            _ => false,
        }
    }
}

} // verus!
