//! Comparison and parsing of the short texts that requests carry.

use vstd::prelude::*;

verus! {

/// The lower-case form of an ASCII capital; every other character is itself.
pub open spec fn lower(c: char) -> char {
    if 'A' <= c && c <= 'Z' {
        ((c as u8) + 32) as char
    } else {
        c
    }
}

/// A text with every ASCII capital replaced by its lower-case form.
pub open spec fn lowered(s: Seq<char>) -> Seq<char> {
    s.map_values(|c: char| lower(c))
}

/// The permissive reading of a text as a boolean: `1`, `true`, `yes` and `y`,
/// in any mix of upper and lower case, are true; every other text is false.
pub open spec fn truthy(s: Seq<char>) -> bool {
    let t = lowered(s);
    t == seq!['1'] || t == seq!['t', 'r', 'u', 'e'] || t == seq!['y', 'e', 's'] || t == seq!['y']
}

/// The strict reading of a text as a boolean: `true` and `false`, written
/// exactly so. Any other text has no reading.
pub open spec fn boolean(s: Seq<char>) -> Option<bool> {
    if s == "true"@ {
        Some(true)
    } else if s == "false"@ {
        Some(false)
    } else {
        None
    }
}

/// Whether a character is one of the ten decimal digits.
pub open spec fn is_digit(c: char) -> bool {
    '0' <= c && c <= '9'
}

/// Whether a text holds decimal digits only.
pub open spec fn all_digits(s: Seq<char>) -> bool {
    forall|i: int| 0 <= i < s.len() ==> is_digit(#[trigger] s[i])
}

/// The number that a sequence of decimal digits writes, most significant first.
pub open spec fn decimal_value(s: Seq<char>) -> nat
    decreases s.len(),
{
    if s.len() == 0 {
        0
    } else {
        decimal_value(s.drop_last()) * 10 + (s.last() as nat - '0' as nat) as nat
    }
}

/// A text without its leading plus sign, if it has one.
pub open spec fn unsigned_part(s: Seq<char>) -> Seq<char> {
    if s.len() > 0 && s[0] == '+' {
        s.skip(1)
    } else {
        s
    }
}

/// The reading of a text as a number from 0 to 255: an optional plus sign, then
/// one or more decimal digits (leading zeros allowed) that write a value of at
/// most 255. Any other text has no reading.
pub open spec fn small_number(s: Seq<char>) -> Option<u8> {
    let d = unsigned_part(s);
    if d.len() > 0 && all_digits(d) && decimal_value(d) <= 255 {
        Some(decimal_value(d) as u8)
    } else {
        None
    }
}

/// Appending digits never makes the written value smaller.
proof fn lemma_decimal_value_grows(s: Seq<char>, k: int)
    requires
        0 <= k <= s.len(),
    ensures
        decimal_value(s.take(k)) <= decimal_value(s),
    decreases s.len() - k,
{
    if k == s.len() {
        assert(s.take(k) =~= s);
    } else {
        lemma_decimal_value_grows(s, k + 1);
        assert(s.take(k + 1).drop_last() =~= s.take(k));
    }
}

/// Whether two texts hold the same characters.
pub fn same_text(a: &str, b: &str) -> (same: bool)
    ensures
        same == (a@ == b@),
{
    let x = a.as_bytes();
    let y = b.as_bytes();
    proof {
        vstd::utf8::encode_utf8_decode_utf8(a@);
        vstd::utf8::encode_utf8_decode_utf8(b@);
    }
    if x.len() != y.len() {
        return false;
    }
    let mut i: usize = 0;
    while i < x.len()
        invariant
            x@ == vstd::utf8::encode_utf8(a@),
            y@ == vstd::utf8::encode_utf8(b@),
            x@.len() == y@.len(),
            i <= x@.len(),
            forall|j: int| 0 <= j < i ==> x@[j] == y@[j],
        decreases x@.len() - i,
    {
        if x[i] != y[i] {
            return false;
        }
        i += 1;
    }
    assert(x@ =~= y@);
    true
}

fn to_lower(c: char) -> (r: char)
    ensures
        r == lower(c),
{
    if 'A' <= c && c <= 'Z' {
        ((c as u8) + 32) as char
    } else {
        c
    }
}

/// Reads a text as a boolean by the permissive rule: nothing is rejected.
pub fn str_to_bool(s: &str) -> (b: bool)
    ensures
        b == truthy(s@),
{
    // No word of the rule has more than four characters: keep the first five.
    let mut head: Vec<char> = Vec::new();
    for c in it: s.chars()
        invariant
            it.seq() == s@,
            head@.len() == if it.index() < 5 { it.index() } else { 5 },
            forall|j: int| 0 <= j < head@.len() ==> head@[j] == lower(#[trigger] s@[j]),
    {
        if head.len() < 5 {
            head.push(to_lower(c));
        }
    }
    let n: usize = head.len();
    proof {
        if n < 5 {
            assert(head@ =~= lowered(s@));
        } else {
            assert(lowered(s@).len() >= 5);
        }
        assert(seq!['1'].len() == 1 && seq!['y'].len() == 1);
        assert(seq!['y', 'e', 's'].len() == 3 && seq!['t', 'r', 'u', 'e'].len() == 4);
    }
    if n == 1 {
        let b = head[0] == '1' || head[0] == 'y';
        assert(head@ =~= seq![head@[0]]);
        b
    } else if n == 3 {
        let b = head[0] == 'y' && head[1] == 'e' && head[2] == 's';
        assert(head@ =~= seq![head@[0], head@[1], head@[2]]);
        b
    } else if n == 4 {
        let b = head[0] == 't' && head[1] == 'r' && head[2] == 'u' && head[3] == 'e';
        assert(head@ =~= seq![head@[0], head@[1], head@[2], head@[3]]);
        b
    } else {
        false
    }
}

/// Reads a text as a boolean by the strict rule.
pub fn parse_bool(s: &str) -> (r: Option<bool>)
    ensures
        r == boolean(s@),
{
    if same_text(s, "true") {
        Some(true)
    } else if same_text(s, "false") {
        Some(false)
    } else {
        None
    }
}

/// Where the strict rule reads a boolean, the permissive rule reads the same
/// one.
pub proof fn lemma_strict_reading_agrees(s: Seq<char>)
    ensures
        boolean(s) matches Some(b) ==> truthy(s) == b,
{
    reveal_strlit("true");
    reveal_strlit("false");
    assert(seq!['1'].len() == 1 && seq!['y'].len() == 1 && seq!['y', 'e', 's'].len() == 3
        && seq!['t', 'r', 'u', 'e'].len() == 4);
    if s == "true"@ {
        assert(lowered(s) =~= seq!['t', 'r', 'u', 'e']);
    } else if s == "false"@ {
        assert(lowered(s).len() == 5);
    }
}

/// Reads a text as a number from 0 to 255.
pub fn parse_small_number(s: &str) -> (r: Option<u8>)
    ensures
        r == small_number(s@),
{
    let mut value: u16 = 0;
    let mut any_digit = false;
    let mut signed = false;
    let ghost mut digits: int = 0;
    for c in it: s.chars()
        invariant
            it.seq() == s@,
            signed == (it.index() > 0 && s@[0] == '+'),
            digits == it.index() - if signed { 1int } else { 0int },
            any_digit == (digits > 0),
            0 <= digits <= unsigned_part(s@).len(),
            all_digits(unsigned_part(s@).take(digits)),
            value == decimal_value(unsigned_part(s@).take(digits)),
            value <= 255,
    {
        let ghost d = unsigned_part(s@);
        if c == '+' && !signed && !any_digit {
            signed = true;
        } else if '0' <= c && c <= '9' {
            let next: u16 = value * 10 + ((c as u8) - ('0' as u8)) as u16;
            proof {
                assert(d.take(digits + 1).drop_last() =~= d.take(digits));
                assert(d.take(digits + 1).last() == c);
            }
            if next > 255 {
                proof {
                    lemma_decimal_value_grows(d, digits + 1);
                }
                return None;
            }
            value = next;
            any_digit = true;
            proof {
                digits = digits + 1;
            }
        } else {
            assert(!is_digit(d[digits]));
            return None;
        }
    }
    proof {
        assert(unsigned_part(s@).take(digits) =~= unsigned_part(s@));
    }
    if any_digit {
        Some(value as u8)
    } else {
        None
    }
}

} // verus!
