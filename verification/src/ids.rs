//! Identifiers: servers, channels, users and messages are UUIDs, held as
//! 128-bit numbers and written in the canonical hyphenated form.

use vstd::prelude::*;
use crate::text::push_char;

verus! {

/// Lower-case hexadecimal digit of `d < 16`.
pub open spec fn hex_digit(d: nat) -> char {
    if d < 10 {
        ('0' as u32 + d) as char
    } else {
        ('a' as u32 + (d - 10)) as char
    }
}

/// The last `count` hexadecimal digits of `v`, most significant first.
pub open spec fn hex_digits(v: nat, count: nat) -> Seq<char>
    decreases count,
{
    if count == 0 {
        Seq::empty()
    } else {
        hex_digits(v / 16, (count - 1) as nat).push(hex_digit(v % 16))
    }
}

/// The canonical text of a UUID: 32 lower-case hexadecimal digits grouped
/// 8-4-4-4-12 by hyphens.
pub open spec fn uuid_text(id: u128) -> Seq<char> {
    let h = hex_digits(id as nat, 32);
    h.subrange(0, 8) + seq!['-'] + h.subrange(8, 12) + seq!['-'] + h.subrange(12, 16) + seq!['-']
        + h.subrange(16, 20) + seq!['-'] + h.subrange(20, 32)
}

proof fn lemma_hex_digits_len(v: nat, count: nat)
    ensures
        hex_digits(v, count).len() == count,
    decreases count,
{
    if count > 0 {
        lemma_hex_digits_len(v / 16, (count - 1) as nat);
    }
}

fn hex(d: u8) -> (c: char)
    requires
        d < 16,
    ensures
        c == hex_digit(d as nat),
{
    if d < 10 {
        ('0' as u8 + d) as char
    } else {
        ('a' as u8 + (d - 10)) as char
    }
}

fn push_hex_digits(out: &mut String, v: u128, count: u32)
    ensures
        final(out)@ == old(out)@ + hex_digits(v as nat, count as nat),
    decreases count,
{
    if count > 0 {
        push_hex_digits(out, v / 16, count - 1);
        push_char(out, hex((v % 16) as u8));
    }
}

/// Writes a UUID in its canonical hyphenated form.
pub fn uuid_string(id: u128) -> (res: String)
    ensures
        res@ == uuid_text(id),
{
    let mut digits = String::new();
    push_hex_digits(&mut digits, id, 32);
    proof {
        lemma_hex_digits_len(id as nat, 32);
    }
    let h = digits.as_str();
    let mut res = String::from_str(h.substring_char(0, 8));
    res.append("-");
    res.append(h.substring_char(8, 12));
    res.append("-");
    res.append(h.substring_char(12, 16));
    res.append("-");
    res.append(h.substring_char(16, 20));
    res.append("-");
    res.append(h.substring_char(20, 32));
    proof {
        reveal_strlit("-");
    }
    res
}

/// Value of a hexadecimal digit, either case.
pub open spec fn digit_value(c: char) -> Option<nat> {
    if '0' <= c && c <= '9' {
        Some((c as u32 - '0' as u32) as nat)
    } else if 'a' <= c && c <= 'f' {
        Some((c as u32 - 'a' as u32 + 10) as nat)
    } else if 'A' <= c && c <= 'F' {
        Some((c as u32 - 'A' as u32 + 10) as nat)
    } else {
        None
    }
}

/// The number a sequence of hexadecimal digits stands for.
pub open spec fn hex_value(d: Seq<char>) -> nat
    decreases d.len(),
{
    if d.len() == 0 {
        0
    } else {
        hex_value(d.drop_last()) * 16 + match digit_value(d.last()) {
            Some(v) => v,
            None => 0,
        }
    }
}

pub open spec fn pow16(n: nat) -> nat
    decreases n,
{
    if n == 0 {
        1
    } else {
        16 * pow16((n - 1) as nat)
    }
}

/// Positions of the hyphens in the canonical text of a UUID.
pub open spec fn hyphen_at(i: int) -> bool {
    i == 8 || i == 13 || i == 18 || i == 23
}

/// The 32 digits of a canonical UUID text, without its hyphens.
pub open spec fn hex_part(s: Seq<char>) -> Seq<char> {
    s.subrange(0, 8) + s.subrange(9, 13) + s.subrange(14, 18) + s.subrange(19, 23) + s.subrange(24, 36)
}

/// `s` is 8-4-4-4-12 hexadecimal digits (either case) joined by hyphens.
pub open spec fn well_formed_uuid(s: Seq<char>) -> bool {
    &&& s.len() == 36
    &&& forall|i: int| 0 <= i < 36 ==> if hyphen_at(i) {
        #[trigger] s[i] == '-'
    } else {
        digit_value(s[i]) is Some
    }
}

/// The UUID a text stands for, if it is well formed.
pub open spec fn parsed_uuid(s: Seq<char>) -> Option<u128> {
    if well_formed_uuid(s) {
        Some(hex_value(hex_part(s)) as u128)
    } else {
        None
    }
}

fn digit_of(c: char) -> (res: Option<u8>)
    ensures
        match res {
            Some(v) => digit_value(c) == Some(v as nat) && v < 16,
            None => digit_value(c) is None,
        },
{
    if '0' <= c && c <= '9' {
        Some((c as u32 - '0' as u32) as u8)
    } else if 'a' <= c && c <= 'f' {
        Some((c as u32 - 'a' as u32 + 10) as u8)
    } else if 'A' <= c && c <= 'F' {
        Some((c as u32 - 'A' as u32 + 10) as u8)
    } else {
        None
    }
}

proof fn lemma_pow16_bounds(k: nat)
    requires
        k <= 32,
    ensures
        pow16(k) <= pow16(32),
        pow16(32) == 0x1_0000_0000_0000_0000_0000_0000_0000_0000,
    decreases 32 - k,
{
    reveal_with_fuel(pow16, 33);
    if k < 32 {
        lemma_pow16_bounds(k + 1);
    }
}

/// Reads a UUID written as 8-4-4-4-12 hexadecimal digits.
pub fn parse_uuid(text: &str) -> (res: Option<u128>)
    ensures
        res == parsed_uuid(text@),
{
    let n = text.unicode_len();
    if n != 36 {
        return None;
    }
    let mut i: usize = 0;
    while i < 36
        invariant
            n == text@.len(),
            n == 36,
            i <= 36,
            forall|j: int| 0 <= j < i ==> if hyphen_at(j) {
                #[trigger] text@[j] == '-'
            } else {
                digit_value(text@[j]) is Some
            },
        decreases 36 - i,
    {
        let c = text.get_char(i);
        if i == 8 || i == 13 || i == 18 || i == 23 {
            if c != '-' {
                return None;
            }
        } else if digit_of(c).is_none() {
            return None;
        }
        i = i + 1;
    }
    let mut digits = String::from_str(text.substring_char(0, 8));
    digits.append(text.substring_char(9, 13));
    digits.append(text.substring_char(14, 18));
    digits.append(text.substring_char(19, 23));
    digits.append(text.substring_char(24, 36));
    assert(digits@ == hex_part(text@));
    assert forall|k: int| 0 <= k < 32 implies digit_value(#[trigger] digits@[k]) is Some by {
        let j = if k < 8 { k } else if k < 12 { k + 1 } else if k < 16 { k + 2 } else if k < 20 { k + 3 } else { k + 4 };
        assert(digits@[k] == text@[j]);
        assert(!hyphen_at(j));
    }
    let mut value: u128 = 0;
    let mut k: usize = 0;
    while k < 32
        invariant
            digits@.len() == 32,
            forall|q: int| 0 <= q < 32 ==> digit_value(#[trigger] digits@[q]) is Some,
            k <= 32,
            value == hex_value(digits@.take(k as int)),
            value < pow16(k as nat),
        decreases 32 - k,
    {
        proof {
            lemma_pow16_bounds((k + 1) as nat);
            assert(digits@.take(k + 1).drop_last() =~= digits@.take(k as int));
        }
        let d = digit_of(digits.as_str().get_char(k)).unwrap();
        value = value * 16 + d as u128;
        k = k + 1;
    }
    assert(digits@.take(32) =~= digits@);
    Some(value)
}

proof fn lemma_pow16_positive(n: nat)
    ensures
        pow16(n) > 0,
    decreases n,
{
    if n > 0 {
        lemma_pow16_positive((n - 1) as nat);
    }
}

proof fn lemma_hex_digit_value(d: nat)
    requires
        d < 16,
    ensures
        digit_value(hex_digit(d)) == Some(d),
{
}

proof fn lemma_hex_digits_value(v: nat, n: nat)
    ensures
        hex_digits(v, n).len() == n,
        forall|i: int| 0 <= i < n ==> digit_value(#[trigger] hex_digits(v, n)[i]) is Some,
        hex_value(hex_digits(v, n)) == v % pow16(n),
    decreases n,
{
    if n == 0 {
    } else {
        let m = (n - 1) as nat;
        lemma_hex_digits_value(v / 16, m);
        lemma_hex_digit_value(v % 16);
        let h = hex_digits(v, n);
        assert(h.drop_last() =~= hex_digits(v / 16, m));
        assert forall|i: int| 0 <= i < n implies digit_value(#[trigger] h[i]) is Some by {
            if i < m {
                assert(h[i] == hex_digits(v / 16, m)[i]);
            }
        }
        lemma_pow16_positive(m);
        vstd::arithmetic::div_mod::lemma_mod_breakdown(v as int, 16, pow16(m) as int);
    }
}

/// Reading the canonical text of a UUID gives the UUID back.
pub proof fn law_uuid_text_round_trip(id: u128)
    ensures
        parsed_uuid(uuid_text(id)) == Some(id),
        uuid_text(id).len() == 36,
{
    let h = hex_digits(id as nat, 32);
    lemma_hex_digits_value(id as nat, 32);
    lemma_pow16_bounds(32);
    let s = uuid_text(id);
    reveal_strlit("-");
    assert(s.len() == 36);
    assert(hex_part(s) =~= h);
    assert forall|i: int| 0 <= i < 36 implies if hyphen_at(i) {
        #[trigger] s[i] == '-'
    } else {
        digit_value(s[i]) is Some
    } by {
        if !hyphen_at(i) {
            let k = if i < 8 { i } else if i < 13 { i - 1 } else if i < 18 { i - 2 } else if i < 23 { i - 3 } else { i - 4 };
            assert(s[i] == h[k]);
        }
    }
    vstd::arithmetic::div_mod::lemma_small_mod(id as nat, pow16(32));
}

} // verus!
