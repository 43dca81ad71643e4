//! Verified encodings used at the wallet's boundaries: lower-case
//! hexadecimal for channel ids, and decimal for amount parameters.

use vstd::prelude::*;

verus! {

/// The lower-case hexadecimal digit for a value below 16.
pub open spec fn hex_digit_char(n: int) -> char
    recommends
        0 <= n < 16,
{
    if n == 0 {
        '0'
    } else if n == 1 {
        '1'
    } else if n == 2 {
        '2'
    } else if n == 3 {
        '3'
    } else if n == 4 {
        '4'
    } else if n == 5 {
        '5'
    } else if n == 6 {
        '6'
    } else if n == 7 {
        '7'
    } else if n == 8 {
        '8'
    } else if n == 9 {
        '9'
    } else if n == 10 {
        'a'
    } else if n == 11 {
        'b'
    } else if n == 12 {
        'c'
    } else if n == 13 {
        'd'
    } else if n == 14 {
        'e'
    } else {
        'f'
    }
}

/// The lower-case hexadecimal rendering of a byte sequence: two digits per
/// byte, high nibble first.
pub open spec fn hex_of_bytes(s: Seq<u8>) -> Seq<char>
    decreases s.len(),
{
    if s.len() == 0 {
        Seq::empty()
    } else {
        hex_of_bytes(s.drop_last()) + seq![
            hex_digit_char(s.last() as int / 16),
            hex_digit_char(s.last() as int % 16),
        ]
    }
}

fn hex_digit_str(n: u8) -> (r: &'static str)
    requires
        n < 16,
    ensures
        r@.len() == 1,
        r@[0] == hex_digit_char(n as int),
{
    proof {
        reveal_strlit("0");
        reveal_strlit("1");
        reveal_strlit("2");
        reveal_strlit("3");
        reveal_strlit("4");
        reveal_strlit("5");
        reveal_strlit("6");
        reveal_strlit("7");
        reveal_strlit("8");
        reveal_strlit("9");
        reveal_strlit("a");
        reveal_strlit("b");
        reveal_strlit("c");
        reveal_strlit("d");
        reveal_strlit("e");
        reveal_strlit("f");
    }
    match n {
        0 => "0",
        1 => "1",
        2 => "2",
        3 => "3",
        4 => "4",
        5 => "5",
        6 => "6",
        7 => "7",
        8 => "8",
        9 => "9",
        10 => "a",
        11 => "b",
        12 => "c",
        13 => "d",
        14 => "e",
        _ => "f",
    }
}

/// Renders a byte vector as lower-case hexadecimal, two digits per byte.
pub fn bytes_to_lower_hex(bytes: &Vec<u8>) -> (r: String)
    ensures
        r@ == hex_of_bytes(bytes@),
{
    let mut s = String::new();
    let mut i: usize = 0;
    while i < bytes.len()
        invariant
            0 <= i <= bytes@.len(),
            s@ == hex_of_bytes(bytes@.subrange(0, i as int)),
        decreases bytes@.len() - i,
    {
        let b = bytes[i];
        s.append(hex_digit_str(b / 16));
        s.append(hex_digit_str(b % 16));
        i = i + 1;
        proof {
            let cur = bytes@.subrange(0, i as int);
            assert(cur.drop_last() =~= bytes@.subrange(0, i - 1));
            assert(cur.last() == b);
            assert(s@ =~= hex_of_bytes(cur));
        }
    }
    proof {
        assert(bytes@.subrange(0, bytes@.len() as int) =~= bytes@);
    }
    s
}

/// 256 raised to the given power.
pub open spec fn pow256(n: nat) -> int
    decreases n,
{
    if n == 0 {
        1
    } else {
        256 * pow256((n - 1) as nat)
    }
}

proof fn lemma_pow256_pos(n: nat)
    ensures
        pow256(n) >= 1,
    decreases n,
{
    if n > 0 {
        lemma_pow256_pos((n - 1) as nat);
    }
}

/// Byte `i` (big-endian, 16 bytes in all) of a 128-bit id.
pub open spec fn u128_byte(x: u128, i: int) -> u8
    recommends
        0 <= i < 16,
{
    ((x as int / pow256((15 - i) as nat)) % 256) as u8
}

/// The 16 big-endian bytes of a 128-bit id.
pub open spec fn u128_be_bytes(x: u128) -> Seq<u8> {
    Seq::new(16, |i: int| u128_byte(x, i))
}

/// Splits a 128-bit id into its 16 big-endian bytes.
pub fn u128_to_be_bytes(x: u128) -> (r: Vec<u8>)
    ensures
        r@ == u128_be_bytes(x),
{
    let mut le: Vec<u8> = Vec::new();
    let mut v: u128 = x;
    let mut k: usize = 0;
    while k < 16
        invariant
            0 <= k <= 16,
            le@.len() == k,
            v as int == x as int / pow256(k as nat),
            forall|j: int|
                0 <= j < k ==> le@[j] == ((x as int / pow256(j as nat)) % 256) as u8,
        decreases 16 - k,
    {
        proof {
            lemma_pow256_pos(k as nat);
            vstd::arithmetic::div_mod::lemma_div_denominator(x as int, pow256(k as nat), 256);
            assert(pow256((k + 1) as nat) == 256 * pow256(k as nat));
        }
        le.push((v % 256) as u8);
        v = v / 256;
        k = k + 1;
    }
    let mut r: Vec<u8> = Vec::new();
    let mut i: usize = 0;
    while i < 16
        invariant
            0 <= i <= 16,
            le@.len() == 16,
            r@.len() == i,
            forall|j: int|
                0 <= j < 16 ==> le@[j] == ((x as int / pow256(j as nat)) % 256) as u8,
            forall|j: int| 0 <= j < i ==> r@[j] == u128_byte(x, j),
        decreases 16 - i,
    {
        r.push(le[15 - i]);
        i = i + 1;
    }
    proof {
        assert(r@ =~= u128_be_bytes(x));
    }
    r
}

/// Renders a process-local channel id the way the engine does: the
/// lower-case hexadecimal of its 16 big-endian bytes, 32 digits in all.
pub fn format_user_channel_id(x: u128) -> (r: String)
    ensures
        r@ == hex_of_bytes(u128_be_bytes(x)),
{
    let bytes = u128_to_be_bytes(x);
    bytes_to_lower_hex(&bytes)
}

/// The value of one hexadecimal digit, either case, or nothing.
pub open spec fn hex_char_value(c: char) -> Option<u8> {
    if c == '0' {
        Some(0u8)
    } else if c == '1' {
        Some(1u8)
    } else if c == '2' {
        Some(2u8)
    } else if c == '3' {
        Some(3u8)
    } else if c == '4' {
        Some(4u8)
    } else if c == '5' {
        Some(5u8)
    } else if c == '6' {
        Some(6u8)
    } else if c == '7' {
        Some(7u8)
    } else if c == '8' {
        Some(8u8)
    } else if c == '9' {
        Some(9u8)
    } else if c == 'a' || c == 'A' {
        Some(10u8)
    } else if c == 'b' || c == 'B' {
        Some(11u8)
    } else if c == 'c' || c == 'C' {
        Some(12u8)
    } else if c == 'd' || c == 'D' {
        Some(13u8)
    } else if c == 'e' || c == 'E' {
        Some(14u8)
    } else if c == 'f' || c == 'F' {
        Some(15u8)
    } else {
        None
    }
}

fn hex_char_digit(c: char) -> (r: Option<u8>)
    ensures
        r == hex_char_value(c),
{
    match c {
        '0' => Some(0),
        '1' => Some(1),
        '2' => Some(2),
        '3' => Some(3),
        '4' => Some(4),
        '5' => Some(5),
        '6' => Some(6),
        '7' => Some(7),
        '8' => Some(8),
        '9' => Some(9),
        'a' | 'A' => Some(10),
        'b' | 'B' => Some(11),
        'c' | 'C' => Some(12),
        'd' | 'D' => Some(13),
        'e' | 'E' => Some(14),
        'f' | 'F' => Some(15),
        _ => None,
    }
}

/// Whether every character is a hexadecimal digit.
pub open spec fn is_hex_seq(s: Seq<char>) -> bool {
    forall|i: int| 0 <= i < s.len() ==> (#[trigger] hex_char_value(s[i])) is Some
}

/// The number a sequence of hexadecimal digits denotes, most significant
/// digit first.
pub open spec fn hex_seq_value(s: Seq<char>) -> int
    recommends
        is_hex_seq(s),
    decreases s.len(),
{
    if s.len() == 0 {
        0
    } else {
        hex_seq_value(s.drop_last()) * 16 + hex_char_value(s.last()).unwrap()
    }
}

/// 16 raised to the given power.
pub open spec fn pow16(n: nat) -> int
    decreases n,
{
    if n == 0 {
        1
    } else {
        16 * pow16((n - 1) as nat)
    }
}

proof fn lemma_pow16_pos(n: nat)
    ensures
        pow16(n) >= 1,
    decreases n,
{
    if n > 0 {
        lemma_pow16_pos((n - 1) as nat);
    }
}

proof fn lemma_pow16_mono(a: nat, b: nat)
    requires
        a <= b,
    ensures
        pow16(a) <= pow16(b),
    decreases b,
{
    if a < b {
        lemma_pow16_mono(a, (b - 1) as nat);
        lemma_pow16_pos((b - 1) as nat);
    }
}

proof fn lemma_hex_seq_value_bound(s: Seq<char>)
    requires
        is_hex_seq(s),
    ensures
        0 <= hex_seq_value(s) < pow16(s.len()),
    decreases s.len(),
{
    if s.len() > 0 {
        assert(is_hex_seq(s.drop_last()));
        lemma_hex_seq_value_bound(s.drop_last());
    }
}

/// Parses a 128-bit id from exactly 32 hexadecimal digits, either case.
pub fn parse_hex_u128(s: &str) -> (r: Option<u128>)
    ensures
        r is Some <==> s@.len() == 32 && is_hex_seq(s@),
        r matches Some(v) ==> v as int == hex_seq_value(s@),
{
    let n = s.unicode_len();
    if n != 32 {
        return None;
    }
    let mut acc: u128 = 0;
    let mut i: usize = 0;
    while i < 32
        invariant
            s@.len() == 32,
            0 <= i <= 32,
            is_hex_seq(s@.subrange(0, i as int)),
            acc as int == hex_seq_value(s@.subrange(0, i as int)),
        decreases 32 - i,
    {
        let c = s.get_char(i);
        let d = match hex_char_digit(c) {
            Some(d) => d,
            None => {
                return None;
            },
        };
        proof {
            let pre = s@.subrange(0, i as int);
            lemma_hex_seq_value_bound(pre);
            lemma_pow16_mono((i as nat), 31nat);
            reveal_with_fuel(pow16, 33);
            assert(pow16(31) == 0x10000000000000000000000000000000int);
            assert(acc * 16 + d <= u128::MAX);
        }
        acc = acc * 16 + (d as u128);
        i = i + 1;
        proof {
            let cur = s@.subrange(0, i as int);
            assert(cur.drop_last() =~= s@.subrange(0, i - 1));
            assert(cur.last() == c);
            assert(forall|j: int|
                0 <= j < cur.len() ==> (#[trigger] hex_char_value(cur[j])) is Some);
        }
    }
    proof {
        assert(s@.subrange(0, 32) =~= s@);
    }
    Some(acc)
}

/// The number a big-endian byte sequence denotes.
pub open spec fn bytes_be_value(s: Seq<u8>) -> int
    decreases s.len(),
{
    if s.len() == 0 {
        0
    } else {
        bytes_be_value(s.drop_last()) * 256 + s.last()
    }
}

proof fn lemma_hex_digit_value(n: int)
    requires
        0 <= n < 16,
    ensures
        hex_char_value(hex_digit_char(n)) == Some(n as u8),
{
}

proof fn lemma_hex_of_bytes_value(s: Seq<u8>)
    ensures
        hex_of_bytes(s).len() == 2 * s.len(),
        is_hex_seq(hex_of_bytes(s)),
        hex_seq_value(hex_of_bytes(s)) == bytes_be_value(s),
    decreases s.len(),
{
    if s.len() > 0 {
        lemma_hex_of_bytes_value(s.drop_last());
        let pre = hex_of_bytes(s.drop_last());
        let b = s.last();
        let hi = hex_digit_char(b as int / 16);
        let lo = hex_digit_char(b as int % 16);
        let whole = hex_of_bytes(s);
        assert(whole == pre + seq![hi, lo]);
        assert(whole.drop_last() =~= pre + seq![hi]);
        assert((pre + seq![hi]).drop_last() =~= pre);
        lemma_hex_digit_value(b as int / 16);
        lemma_hex_digit_value(b as int % 16);
        assert(forall|i: int|
            0 <= i < whole.len() ==> (#[trigger] hex_char_value(whole[i])) is Some);
        assert(whole.last() == lo);
        assert((pre + seq![hi]).last() == hi);
        assert(hex_seq_value(pre + seq![hi]) == hex_seq_value(pre) * 16 + (b as int / 16));
        assert(hex_seq_value(whole) == hex_seq_value(pre + seq![hi]) * 16 + (b as int % 16));
        assert(hex_seq_value(whole) == (hex_seq_value(pre) * 16 + b as int / 16) * 16 + b as int
            % 16);
    }
}

proof fn lemma_u128_be_bytes_value(x: u128, k: int)
    requires
        0 <= k <= 16,
    ensures
        bytes_be_value(u128_be_bytes(x).subrange(0, k)) == x as int / pow256((16 - k) as nat),
    decreases k,
{
    if k == 0 {
        reveal_with_fuel(pow256, 17);
        assert(pow256(16nat) == 0x100000000000000000000000000000000int);
        vstd::arithmetic::div_mod::lemma_basic_div(x as int, pow256(16nat));
    } else {
        lemma_u128_be_bytes_value(x, k - 1);
        let bytes = u128_be_bytes(x);
        let cur = bytes.subrange(0, k);
        assert(cur.drop_last() =~= bytes.subrange(0, k - 1));
        assert(cur.last() == u128_byte(x, k - 1));
        let m = pow256((16 - k) as nat);
        lemma_pow256_pos((16 - k) as nat);
        assert(pow256((17 - k) as nat) == 256 * m);
        vstd::arithmetic::div_mod::lemma_div_denominator(x as int, m, 256);
        let q = x as int / m;
        vstd::arithmetic::div_mod::lemma_fundamental_div_mod(q, 256);
        assert(bytes_be_value(cur) == (x as int / (256 * m)) * 256 + q % 256);
        assert(x as int / (256 * m) == q / 256);
    }
}

/// Law: rendering a 128-bit channel id in hexadecimal and parsing the
/// rendering yield the id back: the rendering is 32 hexadecimal digits whose
/// value is the id itself.
pub proof fn lemma_channel_id_hex_round_trip(x: u128)
    ensures
        hex_of_bytes(u128_be_bytes(x)).len() == 32,
        is_hex_seq(hex_of_bytes(u128_be_bytes(x))),
        hex_seq_value(hex_of_bytes(u128_be_bytes(x))) == x,
{
    lemma_hex_of_bytes_value(u128_be_bytes(x));
    lemma_u128_be_bytes_value(x, 16);
    assert(u128_be_bytes(x).subrange(0, 16) =~= u128_be_bytes(x));
    assert(x as int / pow256(0nat) == x as int / 1);
}

/// The value of one decimal digit, or nothing.
pub open spec fn dec_char_value(c: char) -> Option<u8> {
    if c == '0' {
        Some(0u8)
    } else if c == '1' {
        Some(1u8)
    } else if c == '2' {
        Some(2u8)
    } else if c == '3' {
        Some(3u8)
    } else if c == '4' {
        Some(4u8)
    } else if c == '5' {
        Some(5u8)
    } else if c == '6' {
        Some(6u8)
    } else if c == '7' {
        Some(7u8)
    } else if c == '8' {
        Some(8u8)
    } else if c == '9' {
        Some(9u8)
    } else {
        None
    }
}

fn dec_char_digit(c: char) -> (r: Option<u8>)
    ensures
        r == dec_char_value(c),
{
    match c {
        '0' => Some(0),
        '1' => Some(1),
        '2' => Some(2),
        '3' => Some(3),
        '4' => Some(4),
        '5' => Some(5),
        '6' => Some(6),
        '7' => Some(7),
        '8' => Some(8),
        '9' => Some(9),
        _ => None,
    }
}

/// Whether the sequence is a non-empty run of decimal digits.
pub open spec fn is_dec_seq(s: Seq<char>) -> bool {
    s.len() > 0 && forall|i: int|
        0 <= i < s.len() ==> (#[trigger] dec_char_value(s[i])) is Some
}

/// The number a sequence of decimal digits denotes, most significant digit
/// first.
pub open spec fn dec_seq_value(s: Seq<char>) -> int
    decreases s.len(),
{
    if s.len() == 0 {
        0
    } else {
        dec_seq_value(s.drop_last()) * 10 + dec_char_value(s.last()).unwrap()
    }
}

proof fn lemma_dec_seq_value_nonneg(s: Seq<char>)
    requires
        forall|i: int| 0 <= i < s.len() ==> (#[trigger] dec_char_value(s[i])) is Some,
    ensures
        dec_seq_value(s) >= 0,
    decreases s.len(),
{
    if s.len() > 0 {
        lemma_dec_seq_value_nonneg(s.drop_last());
    }
}

proof fn lemma_dec_prefix_le(s: Seq<char>, k: int)
    requires
        forall|i: int| 0 <= i < s.len() ==> (#[trigger] dec_char_value(s[i])) is Some,
        0 <= k <= s.len(),
    ensures
        dec_seq_value(s.subrange(0, k)) <= dec_seq_value(s),
    decreases s.len() - k,
{
    if k == s.len() {
        assert(s.subrange(0, k) =~= s);
    } else {
        let cur = s.subrange(0, k + 1);
        assert(cur.drop_last() =~= s.subrange(0, k));
        lemma_dec_seq_value_nonneg(s.subrange(0, k));
        lemma_dec_prefix_le(s, k + 1);
    }
}

/// Parses a non-negative amount from a non-empty run of decimal digits that
/// denotes a number within the 64-bit range.
pub fn parse_u64_decimal(s: &str) -> (r: Option<u64>)
    ensures
        r is Some <==> is_dec_seq(s@) && dec_seq_value(s@) <= u64::MAX,
        r matches Some(v) ==> v == dec_seq_value(s@),
{
    let n = s.unicode_len();
    if n == 0 {
        return None;
    }
    let mut acc: u64 = 0;
    let mut i: usize = 0;
    while i < n
        invariant
            s@.len() == n,
            n > 0,
            0 <= i <= n,
            forall|j: int| 0 <= j < i ==> (#[trigger] dec_char_value(s@[j])) is Some,
            acc as int == dec_seq_value(s@.subrange(0, i as int)),
        decreases n - i,
    {
        let c = s.get_char(i);
        let d = match dec_char_digit(c) {
            Some(d) => d,
            None => {
                return None;
            },
        };
        let shifted = match acc.checked_mul(10) {
            Some(m) => m,
            None => {
                proof {
                    lemma_value_exceeds(s@, i as int, acc as int, d as int);
                }
                return None;
            },
        };
        let next = match shifted.checked_add(d as u64) {
            Some(m) => m,
            None => {
                proof {
                    lemma_value_exceeds(s@, i as int, acc as int, d as int);
                }
                return None;
            },
        };
        acc = next;
        i = i + 1;
        proof {
            let cur = s@.subrange(0, i as int);
            assert(cur.drop_last() =~= s@.subrange(0, i - 1));
            assert(cur.last() == c);
        }
    }
    proof {
        assert(s@.subrange(0, n as int) =~= s@);
    }
    Some(acc)
}

proof fn lemma_value_exceeds(s: Seq<char>, i: int, acc: int, d: int)
    requires
        0 <= i < s.len(),
        dec_char_value(s[i]) is Some,
        d == dec_char_value(s[i]).unwrap(),
        acc == dec_seq_value(s.subrange(0, i)),
        acc * 10 + d > u64::MAX,
    ensures
        !(is_dec_seq(s) && dec_seq_value(s) <= u64::MAX),
{
    if is_dec_seq(s) {
        let cur = s.subrange(0, i + 1);
        assert(cur.drop_last() =~= s.subrange(0, i));
        assert(cur.last() == s[i]);
        assert(dec_seq_value(cur) == acc * 10 + d);
        lemma_dec_prefix_le(s, i + 1);
    }
}

} // verus!
