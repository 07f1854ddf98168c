//! Turning the text fields of a record into bounded control values.
use vstd::prelude::*;
use crate::fields::texts;

verus! {

/// The largest control value a voice accepts.
pub const MAX_CONTROL: u8 = 127;

/// The raw reading that the proportional policy maps onto `MAX_CONTROL`.
pub const FULL_SCALE: u16 = 1000;

pub open spec fn is_digit(c: char) -> bool {
    '0' <= c && c <= '9'
}

pub open spec fn digit_value(c: char) -> nat {
    (c as int - '0' as int) as nat
}

/// The number that a string of decimal digits denotes.
pub open spec fn digits_value(s: Seq<char>) -> nat
    decreases s.len(),
{
    if s.len() == 0 {
        0
    } else {
        digits_value(s.drop_last()) * 10 + digit_value(s.last())
    }
}

pub open spec fn all_digits(s: Seq<char>) -> bool {
    forall|i: int| 0 <= i < s.len() ==> is_digit(#[trigger] s[i])
}

/// The text after an optional leading `+`.
pub open spec fn unsigned_body(s: Seq<char>) -> Seq<char> {
    if s.len() > 0 && s[0] == '+' {
        s.drop_first()
    } else {
        s
    }
}

/// An unsigned decimal number no larger than `max`: an optional `+`, then at
/// least one digit and nothing else.
pub open spec fn parse_unsigned(s: Seq<char>, max: nat) -> Option<nat> {
    let body = unsigned_body(s);
    if body.len() > 0 && all_digits(body) && digits_value(body) <= max {
        Some(digits_value(body))
    } else {
        None
    }
}

pub open spec fn min_nat(a: nat, b: nat) -> nat {
    if a <= b {
        a
    } else {
        b
    }
}

fn parse_bounded(s: &str, max: u32) -> (r: Option<u32>)
    requires
        max <= 1_000_000,
    ensures
        r matches Some(v) ==> parse_unsigned(s@, max as nat) == Some(v as nat),
        r is None ==> parse_unsigned(s@, max as nat) is None,
{
    let n = s.unicode_len();
    let mut i: usize = 0;
    if n > 0 && s.get_char(0) == '+' {
        i = 1;
    }
    let start = i;
    let ghost body = unsigned_body(s@);
    assert(body =~= s@.subrange(start as int, n as int));
    if start == n {
        return None;
    }
    // `acc` holds the value of the digits read so far, saturated at `max + 1`.
    let mut acc: u32 = 0;
    while i < n
        invariant
            start <= i <= n,
            n == s@.len(),
            body == s@.subrange(start as int, n as int),
            body == unsigned_body(s@),
            max <= 1_000_000,
            all_digits(s@.subrange(start as int, i as int)),
            acc as nat == min_nat(digits_value(s@.subrange(start as int, i as int)), max as nat + 1),
        decreases n - i,
    {
        let c = s.get_char(i);
        if c < '0' || c > '9' {
            assert(body[i - start] == c);
            assert(!is_digit(body[i - start]));
            assert(!all_digits(body));
            return None;
        }
        let d = (c as u32) - ('0' as u32);
        let ghost prev = s@.subrange(start as int, i as int);
        let ghost next = s@.subrange(start as int, i + 1);
        assert(next.drop_last() =~= prev);
        assert(next.last() == c);
        assert(digits_value(next) == digits_value(prev) * 10 + d);
        let grown = acc * 10 + d;
        if grown > max {
            acc = max + 1;
        } else {
            acc = grown;
        }
        proof {
            let v = digits_value(prev);
            if v > max as nat {
                assert(v * 10 + d as nat >= v) by (nonlinear_arith)
                    requires v >= 0nat;
            } else {
                assert(acc as nat == min_nat(v * 10 + d as nat, max as nat + 1));
            }
        }
        i = i + 1;
    }
    assert(s@.subrange(start as int, n as int) == body);
    if acc > max {
        None
    } else {
        Some(acc)
    }
}

/// Reads a field as an unsigned 16-bit number.
pub fn parse_u16(s: &str) -> (r: Option<u16>)
    ensures
        r matches Some(v) ==> parse_unsigned(s@, 65535) == Some(v as nat),
        r is None ==> parse_unsigned(s@, 65535) is None,
{
    match parse_bounded(s, 65535) {
        Some(v) => Some(v as u16),
        None => None,
    }
}

/// Reads a field as an unsigned 8-bit number.
pub fn parse_u8(s: &str) -> (r: Option<u8>)
    ensures
        r matches Some(v) ==> parse_unsigned(s@, 255) == Some(v as nat),
        r is None ==> parse_unsigned(s@, 255) is None,
{
    match parse_bounded(s, 255) {
        Some(v) => Some(v as u8),
        None => None,
    }
}

/// How a raw field reading becomes a control value.
#[derive(Clone, Copy, Debug, PartialEq, Eq, Structural)]
pub enum Policy {
    /// Readings are 8-bit numbers (0 to 255) and are cut off at `MAX_CONTROL`.
    DirectClamp,
    /// Readings are 16-bit numbers where `FULL_SCALE` stands for `MAX_CONTROL`;
    /// the value is scaled down, rounded toward zero, and cut off at `MAX_CONTROL`.
    ProportionalScale,
}

/// The largest reading that a policy parses; larger text counts as malformed.
pub open spec fn raw_limit(policy: Policy) -> nat {
    match policy {
        Policy::DirectClamp => 255,
        Policy::ProportionalScale => 65535,
    }
}

/// The control value for a well-formed raw reading.
pub open spec fn scaled(policy: Policy, raw: nat) -> nat {
    match policy {
        Policy::DirectClamp => min_nat(raw, MAX_CONTROL as nat),
        Policy::ProportionalScale => min_nat(
            raw * MAX_CONTROL as nat / FULL_SCALE as nat,
            MAX_CONTROL as nat,
        ),
    }
}

/// The raw reading of field `index`: zero where the field is missing or malformed.
pub open spec fn field_reading(fields: Seq<Seq<char>>, index: int, policy: Policy) -> nat {
    if 0 <= index < fields.len() {
        match parse_unsigned(fields[index], raw_limit(policy)) {
            Some(v) => v,
            None => 0,
        }
    } else {
        0
    }
}

/// The control value that field `index` of a record gives.
pub open spec fn translated(fields: Seq<Seq<char>>, index: int, policy: Policy) -> nat {
    scaled(policy, field_reading(fields, index, policy))
}

/// Maps a well-formed raw reading to a control value.
pub fn scale(policy: Policy, raw: u16) -> (r: u8)
    requires
        raw as nat <= raw_limit(policy),
    ensures
        r as nat == scaled(policy, raw as nat),
{
    match policy {
        Policy::DirectClamp => {
            if raw > MAX_CONTROL as u16 {
                MAX_CONTROL
            } else {
                raw as u8
            }
        },
        Policy::ProportionalScale => {
            let wide = (raw as u32) * (MAX_CONTROL as u32) / (FULL_SCALE as u32);
            if wide > MAX_CONTROL as u32 {
                MAX_CONTROL
            } else {
                wide as u8
            }
        },
    }
}

/// The control value of field `index` of a record, zero where that field is
/// missing or malformed.
pub fn translate_field(fields: &Vec<String>, index: usize, policy: Policy) -> (r: u8)
    ensures
        r as nat == translated(texts(fields@), index as int, policy),
{
    if index >= fields.len() {
        return 0;
    }
    let text = fields[index].as_str();
    assert(texts(fields@)[index as int] == text@);
    let raw: u16 = match policy {
        Policy::DirectClamp => match parse_u8(text) {
            Some(v) => v as u16,
            None => 0,
        },
        Policy::ProportionalScale => match parse_u16(text) {
            Some(v) => v,
            None => 0,
        },
    };
    scale(policy, raw)
}

/// The control values of the two voices: fields 0 and 1 of a record.
pub fn control_values(fields: &Vec<String>, policy: Policy) -> (r: (u8, u8))
    ensures
        r.0 as nat == translated(texts(fields@), 0, policy),
        r.1 as nat == translated(texts(fields@), 1, policy),
{
    (translate_field(fields, 0, policy), translate_field(fields, 1, policy))
}

/// Every control value lies in `0..=MAX_CONTROL`; a well-formed reading `v` gives
/// `min(v, 127)` under the direct policy and `min(floor(v * 127 / 1000), 127)`
/// under the proportional one.
pub proof fn law_translation_range(fields: Seq<Seq<char>>, index: int, policy: Policy)
    ensures
        translated(fields, index, policy) <= MAX_CONTROL as nat,
        0 <= index < fields.len() ==> (parse_unsigned(fields[index], raw_limit(policy)) matches Some(v)
            ==> translated(fields, index, policy) == match policy {
                Policy::DirectClamp => min_nat(v, 127),
                Policy::ProportionalScale => min_nat(v * 127 / 1000, 127),
            }),
{
}

/// A field that is missing or does not parse gives the control value zero.
pub proof fn law_malformed_is_zero(fields: Seq<Seq<char>>, index: int, policy: Policy)
    requires
        !(0 <= index < fields.len()) || parse_unsigned(fields[index], raw_limit(policy)) is None,
    ensures
        translated(fields, index, policy) == 0,
{
}

} // verus!
