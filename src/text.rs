//! Lower-case hexadecimal and decimal renderings of bytes and integers, and
//! the textual shapes that the generated values take.
use vstd::prelude::*;

verus! {

/// The sixteen lower-case hexadecimal digits, in value order.
pub open spec fn hex_digits() -> Seq<char> {
    seq!['0', '1', '2', '3', '4', '5', '6', '7', '8', '9', 'a', 'b', 'c', 'd', 'e', 'f']
}

/// The digit that stands for `d` (`d < 16`).
pub open spec fn hex_digit(d: int) -> char {
    hex_digits()[d]
}

/// A byte as two lower-case hexadecimal digits, high nibble first.
pub open spec fn byte_hex(b: u8) -> Seq<char> {
    seq![hex_digit(b as int / 16), hex_digit(b as int % 16)]
}

/// Each byte as two lower-case hexadecimal digits, concatenated in order.
pub open spec fn hex_of(bs: Seq<u8>) -> Seq<char>
    decreases bs.len(),
{
    if bs.len() == 0 {
        Seq::empty()
    } else {
        hex_of(bs.drop_last()) + byte_hex(bs.last())
    }
}

/// Six bytes as `xx:xx:xx:xx:xx:xx`.
pub open spec fn mac_text(b: Seq<u8>) -> Seq<char> {
    byte_hex(b[0]) + seq![':'] + byte_hex(b[1]) + seq![':'] + byte_hex(b[2]) + seq![':']
        + byte_hex(b[3]) + seq![':'] + byte_hex(b[4]) + seq![':'] + byte_hex(b[5])
}

/// Sixteen bytes in the hyphenated 8-4-4-4-12 form.
pub open spec fn uuid_text(b: Seq<u8>) -> Seq<char> {
    hex_of(b.subrange(0, 4)) + seq!['-'] + hex_of(b.subrange(4, 6)) + seq!['-'] + hex_of(
        b.subrange(6, 8),
    ) + seq!['-'] + hex_of(b.subrange(8, 10)) + seq!['-'] + hex_of(b.subrange(10, 16))
}

/// The decimal digits of `n`, most significant first, with no leading zero.
pub open spec fn decimal_of(n: nat) -> Seq<char>
    decreases n,
{
    if n < 10 {
        seq![hex_digit(n as int)]
    } else {
        decimal_of(n / 10) + seq![hex_digit((n % 10) as int)]
    }
}

/// The value of a string of decimal digits.
pub open spec fn decimal_value(s: Seq<char>) -> int
    decreases s.len(),
{
    if s.len() == 0 {
        0
    } else {
        10 * decimal_value(s.drop_last()) + (s.last() as int - '0' as int)
    }
}

pub open spec fn is_decimal_digit(c: char) -> bool {
    '0' <= c && c <= '9'
}

pub open spec fn is_lower_hex(c: char) -> bool {
    ('0' <= c && c <= '9') || ('a' <= c && c <= 'f')
}

/// `^[0-9a-f]{32}$`
pub open spec fn is_hex32(s: Seq<char>) -> bool {
    s.len() == 32 && forall|i: int| 0 <= i < 32 ==> is_lower_hex(#[trigger] s[i])
}

/// `^[0-9a-f]{2}(:[0-9a-f]{2}){5}$`
pub open spec fn is_mac_shape(s: Seq<char>) -> bool {
    s.len() == 17 && forall|i: int|
        0 <= i < 17 ==> if i % 3 == 2 {
            #[trigger] s[i] == ':'
        } else {
            is_lower_hex(s[i])
        }
}

pub open spec fn is_uuid_dash(i: int) -> bool {
    i == 8 || i == 13 || i == 18 || i == 23
}

/// `xxxxxxxx-xxxx-4xxx-[89ab]xxx-xxxxxxxxxxxx` with `x` in `[0-9a-f]`.
pub open spec fn is_uuid_v4_shape(s: Seq<char>) -> bool {
    &&& s.len() == 36
    &&& forall|i: int|
        0 <= i < 36 ==> if is_uuid_dash(i) {
            #[trigger] s[i] == '-'
        } else {
            is_lower_hex(s[i])
        }
    &&& s[14] == '4'
    &&& s[19] == '8' || s[19] == '9' || s[19] == 'a' || s[19] == 'b'
}

/// `^[0-9]+$` with no leading zero unless the string is `0`.
pub open spec fn is_canonical_decimal(s: Seq<char>) -> bool {
    &&& s.len() > 0
    &&& forall|i: int| 0 <= i < s.len() ==> is_decimal_digit(#[trigger] s[i])
    &&& (s.len() > 1 ==> s[0] != '0')
}

pub proof fn lemma_hex_digit(d: int)
    requires
        0 <= d < 16,
    ensures
        is_lower_hex(hex_digit(d)),
        d < 10 ==> is_decimal_digit(hex_digit(d)) && hex_digit(d) as int == '0' as int + d,
{
}

/// Where each digit of `hex_of(bs)` comes from.
pub proof fn lemma_hex_of(bs: Seq<u8>)
    ensures
        hex_of(bs).len() == 2 * bs.len(),
        forall|i: int|
            0 <= i < bs.len() ==> #[trigger] hex_of(bs)[2 * i] == hex_digit(bs[i] as int / 16)
                && hex_of(bs)[2 * i + 1] == hex_digit(bs[i] as int % 16),
        forall|k: int| 0 <= k < hex_of(bs).len() ==> is_lower_hex(#[trigger] hex_of(bs)[k]),
    decreases bs.len(),
{
    if bs.len() > 0 {
        lemma_hex_of(bs.drop_last());
        let b = bs.last();
        lemma_hex_digit(b as int / 16);
        lemma_hex_digit(b as int % 16);
        assert forall|i: int| 0 <= i < bs.len() implies #[trigger] hex_of(bs)[2 * i] == hex_digit(
            bs[i] as int / 16,
        ) && hex_of(bs)[2 * i + 1] == hex_digit(bs[i] as int % 16) by {
            if i < bs.len() - 1 {
                assert(bs.drop_last()[i] == bs[i]);
            }
        }
        assert forall|k: int| 0 <= k < hex_of(bs).len() implies is_lower_hex(
            #[trigger] hex_of(bs)[k],
        ) by {
            if k < hex_of(bs.drop_last()).len() {
                assert(hex_of(bs)[k] == hex_of(bs.drop_last())[k]);
            }
        }
    }
}

/// Every nibble digit of the bytes is a lower-case hexadecimal digit.
proof fn lemma_nibbles(b: Seq<u8>)
    ensures
        forall|i: int|
            0 <= i < b.len() ==> is_lower_hex(hex_digit(#[trigger] b[i] as int / 16))
                && is_lower_hex(hex_digit(b[i] as int % 16)),
{
    assert forall|i: int| 0 <= i < b.len() implies is_lower_hex(
        hex_digit(#[trigger] b[i] as int / 16),
    ) && is_lower_hex(hex_digit(b[i] as int % 16)) by {
        lemma_hex_digit(b[i] as int / 16);
        lemma_hex_digit(b[i] as int % 16);
    }
}

/// Sixteen bytes rendered by `hex_of` always read as 32 lower-case
/// hexadecimal digits.
pub proof fn lemma_hex32_shape(b: Seq<u8>)
    requires
        b.len() == 16,
    ensures
        is_hex32(hex_of(b)),
{
    lemma_hex_of(b);
}

/// Six bytes rendered by `mac_text` always read as six colon-separated pairs
/// of lower-case hexadecimal digits, whatever the bytes are.
pub proof fn lemma_mac_shape(b: Seq<u8>)
    requires
        b.len() == 6,
    ensures
        is_mac_shape(mac_text(b)),
{
    lemma_nibbles(b);
    let m = mac_text(b);
    assert(m.len() == 17);
    assert forall|i: int| 0 <= i < 17 implies if i % 3 == 2 {
        #[trigger] m[i] == ':'
    } else {
        is_lower_hex(m[i])
    } by {
        let j = i / 3;
        assert(0 <= j < 6);
    }
}

/// Sixteen bytes whose version nibble is 4 and whose variant bits are `10`
/// read, in the hyphenated form, as a version-4 identifier.
pub proof fn lemma_uuid_v4_shape(b: Seq<u8>)
    requires
        b.len() == 16,
        b[6] as int / 16 == 4,
        b[8] as int / 64 == 2,
    ensures
        is_uuid_v4_shape(uuid_text(b)),
{
    let g0 = b.subrange(0, 4);
    let g1 = b.subrange(4, 6);
    let g2 = b.subrange(6, 8);
    let g3 = b.subrange(8, 10);
    let g4 = b.subrange(10, 16);
    lemma_hex_of(g0);
    lemma_hex_of(g1);
    lemma_hex_of(g2);
    lemma_hex_of(g3);
    lemma_hex_of(g4);
    let u = uuid_text(b);
    assert(u.len() == 36);
    assert forall|i: int| 0 <= i < 36 implies if is_uuid_dash(i) {
        #[trigger] u[i] == '-'
    } else {
        is_lower_hex(u[i])
    } by {
        if i < 8 {
            assert(u[i] == hex_of(g0)[i]);
        } else if 8 < i < 13 {
            assert(u[i] == hex_of(g1)[i - 9]);
        } else if 13 < i < 18 {
            assert(u[i] == hex_of(g2)[i - 14]);
        } else if 18 < i < 23 {
            assert(u[i] == hex_of(g3)[i - 19]);
        } else if 23 < i {
            assert(u[i] == hex_of(g4)[i - 24]);
        }
    }
    assert(g2[0] == b[6]);
    assert(u[14] == hex_of(g2)[2 * 0int]);
    assert(g3[0] == b[8]);
    assert(u[19] == hex_of(g3)[2 * 0int]);
    let hi = b[8] as int / 16;
    assert(8 <= hi < 12);
}

/// `decimal_of(n)` is a canonical decimal numeral, and it reads back as `n`.
pub proof fn lemma_decimal_round_trip(n: nat)
    ensures
        is_canonical_decimal(decimal_of(n)),
        decimal_value(decimal_of(n)) == n,
        n >= 10 ==> decimal_of(n).len() > 1,
    decreases n,
{
    if n < 10 {
        lemma_hex_digit(n as int);
        let s = decimal_of(n);
        assert(s.drop_last() =~= Seq::<char>::empty());
        assert(decimal_value(s) == 10 * decimal_value(s.drop_last()) + (s.last() as int
            - '0' as int));
    } else {
        let q = n / 10;
        let d = n % 10;
        assert(q >= 1);
        lemma_decimal_round_trip(q);
        lemma_hex_digit(d as int);
        if q < 10 {
            lemma_hex_digit(q as int);
            assert(decimal_of(q) == seq![hex_digit(q as int)]);
            assert(decimal_of(q)[0] != '0');
        }
        let s = decimal_of(n);
        let p = decimal_of(q);
        assert(s == p + seq![hex_digit(d as int)]);
        assert(s.drop_last() =~= p);
        assert(s.last() == hex_digit(d as int));
        assert(decimal_value(s) == 10 * decimal_value(p) + d);
        assert(n == 10 * q + d);
        assert forall|i: int| 0 <= i < s.len() implies is_decimal_digit(#[trigger] s[i]) by {
            if i < p.len() {
                assert(s[i] == p[i]);
            }
        }
        assert(s[0] == p[0]);
    }
}

/// The string literal of one digit.
fn digit_str(d: u8) -> (r: &'static str)
    requires
        d < 16,
    ensures
        r@ == seq![hex_digit(d as int)],
{
    if d == 0 {
        proof { reveal_strlit("0"); }
        "0"
    } else if d == 1 {
        proof { reveal_strlit("1"); }
        "1"
    } else if d == 2 {
        proof { reveal_strlit("2"); }
        "2"
    } else if d == 3 {
        proof { reveal_strlit("3"); }
        "3"
    } else if d == 4 {
        proof { reveal_strlit("4"); }
        "4"
    } else if d == 5 {
        proof { reveal_strlit("5"); }
        "5"
    } else if d == 6 {
        proof { reveal_strlit("6"); }
        "6"
    } else if d == 7 {
        proof { reveal_strlit("7"); }
        "7"
    } else if d == 8 {
        proof { reveal_strlit("8"); }
        "8"
    } else if d == 9 {
        proof { reveal_strlit("9"); }
        "9"
    } else if d == 10 {
        proof { reveal_strlit("a"); }
        "a"
    } else if d == 11 {
        proof { reveal_strlit("b"); }
        "b"
    } else if d == 12 {
        proof { reveal_strlit("c"); }
        "c"
    } else if d == 13 {
        proof { reveal_strlit("d"); }
        "d"
    } else if d == 14 {
        proof { reveal_strlit("e"); }
        "e"
    } else {
        proof { reveal_strlit("f"); }
        "f"
    }
}

/// Appends the two digits of `b` to `s`.
fn push_byte_hex(s: &mut String, b: u8)
    ensures
        final(s)@ == old(s)@ + byte_hex(b),
{
    s.append(digit_str(b / 16));
    s.append(digit_str(b % 16));
}

/// Each byte as two lower-case hexadecimal digits, in order.
pub fn hex_string(bytes: &[u8]) -> (r: String)
    ensures
        r@ == hex_of(bytes@),
{
    let mut s = String::new();
    let mut i: usize = 0;
    while i < bytes.len()
        invariant
            i <= bytes@.len(),
            s@ == hex_of(bytes@.subrange(0, i as int)),
        decreases bytes@.len() - i,
    {
        assert(bytes@.subrange(0, i + 1).drop_last() =~= bytes@.subrange(0, i as int));
        push_byte_hex(&mut s, bytes[i]);
        i = i + 1;
    }
    assert(bytes@.subrange(0, i as int) =~= bytes@);
    s
}

/// Appends `c` to `s`.
fn push_char_str(s: &mut String, c: &str)
    ensures
        final(s)@ == old(s)@ + c@,
{
    s.append(c);
}

/// Six bytes as colon-separated pairs of lower-case hexadecimal digits.
pub fn mac_string(b: &[u8; 6]) -> (r: String)
    ensures
        r@ == mac_text(b@),
        is_mac_shape(r@),
{
    proof {
        reveal_strlit(":");
        lemma_mac_shape(b@);
    }
    let mut s = String::new();
    push_byte_hex(&mut s, b[0]);
    push_char_str(&mut s, ":");
    push_byte_hex(&mut s, b[1]);
    push_char_str(&mut s, ":");
    push_byte_hex(&mut s, b[2]);
    push_char_str(&mut s, ":");
    push_byte_hex(&mut s, b[3]);
    push_char_str(&mut s, ":");
    push_byte_hex(&mut s, b[4]);
    push_char_str(&mut s, ":");
    push_byte_hex(&mut s, b[5]);
    assert(s@ =~= mac_text(b@));
    s
}

/// `n` in decimal, with no leading zero.
pub fn decimal_string(n: u64) -> (r: String)
    ensures
        r@ == decimal_of(n as nat),
        is_canonical_decimal(r@),
        decimal_value(r@) == n,
    decreases n,
{
    proof {
        lemma_decimal_round_trip(n as nat);
    }
    if n < 10 {
        let mut s = String::new();
        s.append(digit_str(n as u8));
        s
    } else {
        let mut s = decimal_string(n / 10);
        s.append(digit_str((n % 10) as u8));
        s
    }
}

} // verus!
