use vstd::prelude::*;

verus! {

/// The lowercase hexadecimal digit character for a value below 16.
pub open spec fn hex_char(d: u8) -> char {
    if d == 0 {
        '0'
    } else if d == 1 {
        '1'
    } else if d == 2 {
        '2'
    } else if d == 3 {
        '3'
    } else if d == 4 {
        '4'
    } else if d == 5 {
        '5'
    } else if d == 6 {
        '6'
    } else if d == 7 {
        '7'
    } else if d == 8 {
        '8'
    } else if d == 9 {
        '9'
    } else if d == 10 {
        'a'
    } else if d == 11 {
        'b'
    } else if d == 12 {
        'c'
    } else if d == 13 {
        'd'
    } else if d == 14 {
        'e'
    } else {
        'f'
    }
}

/// Whether `c` is a lowercase hexadecimal digit character.
pub open spec fn is_hex_digit(c: char) -> bool {
    c == '0' || c == '1' || c == '2' || c == '3' || c == '4' || c == '5' || c == '6' || c == '7'
        || c == '8' || c == '9' || c == 'a' || c == 'b' || c == 'c' || c == 'd' || c == 'e' || c
        == 'f'
}

/// The value of a lowercase hexadecimal digit character (0 for anything else).
pub open spec fn hex_digit_val(c: char) -> u8 {
    if c == '0' {
        0
    } else if c == '1' {
        1
    } else if c == '2' {
        2
    } else if c == '3' {
        3
    } else if c == '4' {
        4
    } else if c == '5' {
        5
    } else if c == '6' {
        6
    } else if c == '7' {
        7
    } else if c == '8' {
        8
    } else if c == '9' {
        9
    } else if c == 'a' {
        10
    } else if c == 'b' {
        11
    } else if c == 'c' {
        12
    } else if c == 'd' {
        13
    } else if c == 'e' {
        14
    } else if c == 'f' {
        15
    } else {
        0
    }
}

/// The `k`-th nibble of `n`, counted from the least significant end.
pub open spec fn nibble_of(n: u64, k: int) -> u8 {
    ((n >> ((4 * k) as u64)) & 0xf) as u8
}

/// `n` written as exactly 16 lowercase hexadecimal characters, most
/// significant nibble first.
pub open spec fn u64_hex(n: u64) -> Seq<char> {
    Seq::new(16, |i: int| hex_char(nibble_of(n, 15 - i)))
}

/// The numeric value of the first `i` characters of `s`, read as big-endian
/// hexadecimal digits.
pub open spec fn hex_prefix_val(s: Seq<char>, i: int) -> int
    decreases i,
{
    if i <= 0 {
        0
    } else {
        16 * hex_prefix_val(s, i - 1) + hex_digit_val(s[i - 1]) as int
    }
}

/// The value of a 16-character hexadecimal string, or `None` if `s` is not
/// one.
pub open spec fn hex16_val(s: Seq<char>) -> Option<int> {
    if s.len() == 16 && (forall|j: int| 0 <= j < 16 ==> is_hex_digit(#[trigger] s[j])) {
        Some(hex_prefix_val(s, 16))
    } else {
        None
    }
}

/// Sixteen to the power `i`.
pub open spec fn pow16(i: int) -> int
    decreases i,
{
    if i <= 0 {
        1
    } else {
        16 * pow16(i - 1)
    }
}

/// Two hexadecimal characters for one byte, high nibble first.
pub open spec fn byte_hex(b: u8) -> Seq<char> {
    seq![hex_char(b / 16), hex_char(b % 16)]
}

/// The bytes of `bs` written as hexadecimal characters, two per byte.
pub open spec fn bytes_hex(bs: Seq<u8>) -> Seq<char>
    decreases bs.len(),
{
    if bs.len() == 0 {
        Seq::empty()
    } else {
        byte_hex(bs[0]) + bytes_hex(bs.drop_first())
    }
}

proof fn lemma_shift_by_64(n: u64)
    by (bit_vector)
    ensures
        n >> 64u64 == 0u64,
{
}

proof fn lemma_shift_by_0(n: u64)
    by (bit_vector)
    ensures
        n >> 0u64 == n,
{
}

proof fn lemma_nibble_step(n: u64, t: u64, t4: u64)
    by (bit_vector)
    requires
        t <= 60,
        t4 == t + 4,
    ensures
        (n >> t) == 16 * (n >> t4) + ((n >> t) & 0xf),
        ((n >> t) & 0xf) < 16,
{
}

proof fn lemma_pow16_increases(a: int, b: int)
    requires
        a <= b,
    ensures
        pow16(a) <= pow16(b),
    decreases b - a,
{
    if a < b && b > 0 {
        lemma_pow16_increases(a, b - 1);
        lemma_pow16_pos(b - 1);
    }
}

proof fn lemma_pow16_pos(i: int)
    ensures
        pow16(i) >= 1,
    decreases i,
{
    if i > 0 {
        lemma_pow16_pos(i - 1);
    }
}

proof fn lemma_u64_hex_prefix(n: u64, i: int)
    requires
        0 <= i <= 16,
    ensures
        hex_prefix_val(u64_hex(n), i) == (n >> ((4 * (16 - i)) as u64)) as int,
    decreases i,
{
    if i == 0 {
        lemma_shift_by_64(n);
    } else {
        lemma_u64_hex_prefix(n, i - 1);
        let t: u64 = (4 * (16 - i)) as u64;
        let t4: u64 = (4 * (16 - (i - 1))) as u64;
        lemma_nibble_step(n, t, t4);
        assert(u64_hex(n)[i - 1] == hex_char(nibble_of(n, 15 - (i - 1))));
        assert(hex_digit_val(hex_char(((n >> t) & 0xf) as u8)) == ((n >> t) & 0xf) as u8);
    }
}

/// Encoding a `u64` as 16 hexadecimal characters and reading the characters
/// back as a number are inverses.
pub proof fn lemma_u64_hex_roundtrip(n: u64)
    ensures
        hex16_val(u64_hex(n)) == Some(n as int),
{
    assert forall|j: int| 0 <= j < 16 implies is_hex_digit(#[trigger] u64_hex(n)[j]) by {
        let t: u64 = (4 * (15 - j)) as u64;
        lemma_nibble_step(n, t, (t + 4) as u64);
        assert(nibble_of(n, 15 - j) < 16);
    }
    lemma_u64_hex_prefix(n, 16);
    lemma_shift_by_0(n);
}

/// The hexadecimal form of one more byte extends the hexadecimal form of the
/// prefix.
proof fn lemma_bytes_hex_snoc(bs: Seq<u8>, b: u8)
    ensures
        bytes_hex(bs.push(b)) == bytes_hex(bs) + byte_hex(b),
    decreases bs.len(),
{
    if bs.len() == 0 {
        assert(bs.push(b)[0] == b);
        assert(bs.push(b).drop_first() =~= Seq::<u8>::empty());
        assert(bytes_hex(bs.push(b)) == byte_hex(b) + bytes_hex(Seq::<u8>::empty()));
        assert(bytes_hex(bs.push(b)) =~= bytes_hex(bs) + byte_hex(b));
    } else {
        assert(bs.push(b).drop_first() =~= bs.drop_first().push(b));
        lemma_bytes_hex_snoc(bs.drop_first(), b);
        assert(bytes_hex(bs.push(b)) =~= bytes_hex(bs) + byte_hex(b));
    }
}

/// Each byte contributes exactly two characters.
pub proof fn lemma_bytes_hex_len(bs: Seq<u8>)
    ensures
        bytes_hex(bs).len() == 2 * bs.len(),
    decreases bs.len(),
{
    if bs.len() > 0 {
        lemma_bytes_hex_len(bs.drop_first());
    }
}

/// The one-character string for a hexadecimal digit.
pub fn hex_char_str(d: u8) -> (r: &'static str)
    requires
        d < 16,
    ensures
        r@ == seq![hex_char(d)],
{
    match d {
        0 => {
            proof {
                reveal_strlit("0");
                assert("0"@ =~= seq![hex_char(0u8)]);
            }
            "0"
        },
        1 => {
            proof {
                reveal_strlit("1");
                assert("1"@ =~= seq![hex_char(1u8)]);
            }
            "1"
        },
        2 => {
            proof {
                reveal_strlit("2");
                assert("2"@ =~= seq![hex_char(2u8)]);
            }
            "2"
        },
        3 => {
            proof {
                reveal_strlit("3");
                assert("3"@ =~= seq![hex_char(3u8)]);
            }
            "3"
        },
        4 => {
            proof {
                reveal_strlit("4");
                assert("4"@ =~= seq![hex_char(4u8)]);
            }
            "4"
        },
        5 => {
            proof {
                reveal_strlit("5");
                assert("5"@ =~= seq![hex_char(5u8)]);
            }
            "5"
        },
        6 => {
            proof {
                reveal_strlit("6");
                assert("6"@ =~= seq![hex_char(6u8)]);
            }
            "6"
        },
        7 => {
            proof {
                reveal_strlit("7");
                assert("7"@ =~= seq![hex_char(7u8)]);
            }
            "7"
        },
        8 => {
            proof {
                reveal_strlit("8");
                assert("8"@ =~= seq![hex_char(8u8)]);
            }
            "8"
        },
        9 => {
            proof {
                reveal_strlit("9");
                assert("9"@ =~= seq![hex_char(9u8)]);
            }
            "9"
        },
        10 => {
            proof {
                reveal_strlit("a");
                assert("a"@ =~= seq![hex_char(10u8)]);
            }
            "a"
        },
        11 => {
            proof {
                reveal_strlit("b");
                assert("b"@ =~= seq![hex_char(11u8)]);
            }
            "b"
        },
        12 => {
            proof {
                reveal_strlit("c");
                assert("c"@ =~= seq![hex_char(12u8)]);
            }
            "c"
        },
        13 => {
            proof {
                reveal_strlit("d");
                assert("d"@ =~= seq![hex_char(13u8)]);
            }
            "d"
        },
        14 => {
            proof {
                reveal_strlit("e");
                assert("e"@ =~= seq![hex_char(14u8)]);
            }
            "e"
        },
        _ => {
            proof {
                reveal_strlit("f");
                assert("f"@ =~= seq![hex_char(15u8)]);
            }
            "f"
        },
    }
}

/// The value of a lowercase hexadecimal digit character, if it is one.
pub fn hex_digit_of(c: char) -> (r: Option<u8>)
    ensures
        r is Some <==> is_hex_digit(c),
        r matches Some(d) ==> d == hex_digit_val(c) && d < 16,
{
    match c {
        '0' => Some(0),
        '1' => Some(1),
        '2' => Some(2),
        '3' => Some(3),
        '4' => Some(4),
        '5' => Some(5),
        '6' => Some(6),
        '7' => Some(7),
        '8' => Some(8),
        '9' => Some(9),
        'a' => Some(10),
        'b' => Some(11),
        'c' => Some(12),
        'd' => Some(13),
        'e' => Some(14),
        'f' => Some(15),
        _ => None,
    }
}

/// `n` as a 16-character hexadecimal string.
pub fn u64_to_hex(n: u64) -> (r: String)
    ensures
        r@ == u64_hex(n),
{
    let mut out = String::new();
    let mut i: usize = 0;
    while i < 16
        invariant
            i <= 16,
            out@ == u64_hex(n).take(i as int),
        decreases 16 - i,
    {
        let k: u64 = (15 - i) as u64;
        let d: u8 = ((n >> (4 * k)) & 0xf) as u8;
        proof {
            lemma_nibble_step(n, (4 * k) as u64, (4 * k + 4) as u64);
            assert(d == nibble_of(n, 15 - i as int));
        }
        let cs = hex_char_str(d);
        out.append(cs);
        proof {
            assert(out@ =~= u64_hex(n).take(i as int + 1));
        }
        i = i + 1;
    }
    proof {
        assert(u64_hex(n).take(16) =~= u64_hex(n));
    }
    out
}

/// Reads a 16-character hexadecimal string back as a number.
pub fn parse_hex16(s: &str) -> (r: Option<u64>)
    ensures
        r matches Some(v) ==> hex16_val(s@) == Some(v as int),
        r is None ==> hex16_val(s@) is None,
{
    if s.unicode_len() != 16 {
        return None;
    }
    let mut acc: u64 = 0;
    let mut i: usize = 0;
    while i < 16
        invariant
            i <= 16,
            s@.len() == 16,
            forall|j: int| 0 <= j < i ==> is_hex_digit(#[trigger] s@[j]),
            acc as int == hex_prefix_val(s@, i as int),
            (acc as int) < pow16(i as int),
        decreases 16 - i,
    {
        let c = s.get_char(i);
        match hex_digit_of(c) {
            Some(d) => {
                proof {
                    lemma_pow16_increases(i as int, 15);
                    assert(pow16(15) == 0x1000000000000000) by {
                        reveal_with_fuel(pow16, 16);
                    }
                    assert(pow16(16 as int) == 0x10000000000000000) by {
                        reveal_with_fuel(pow16, 17);
                    }
                    lemma_pow16_increases((i + 1) as int, 16);
                }
                acc = acc * 16 + (d as u64);
                i = i + 1;
            },
            None => {
                return None;
            },
        }
    }
    Some(acc)
}

/// The bytes of `v` as a hexadecimal string, two characters per byte.
pub fn hex_of_bytes(v: &Vec<u8>) -> (r: String)
    ensures
        r@ == bytes_hex(v@),
{
    let mut out = String::new();
    let mut i: usize = 0;
    while i < v.len()
        invariant
            i <= v@.len(),
            out@ == bytes_hex(v@.take(i as int)),
        decreases v@.len() - i,
    {
        let b = v[i];
        let hi = hex_char_str(b / 16);
        let lo = hex_char_str(b % 16);
        out.append(hi);
        out.append(lo);
        proof {
            lemma_bytes_hex_snoc(v@.take(i as int), b);
            assert(v@.take(i as int).push(b) =~= v@.take(i as int + 1));
            assert(out@ =~= bytes_hex(v@.take(i as int + 1)));
        }
        i = i + 1;
    }
    proof {
        assert(v@.take(v@.len() as int) =~= v@);
    }
    out
}

} // verus!
