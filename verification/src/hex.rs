//! Hex text: decoding the wire results the library interprets itself
//! (`0x`-prefixed quantities and byte strings) and encoding bytes back
//! into that shape, with the round trip proved.

use vstd::prelude::*;

use vstd::string::StringSliceAdditionalSpecFns;

use crate::bytes::Word32;

verus! {

/// Whether `b` is an ASCII hex digit.
pub open spec fn is_hex_digit(b: u8) -> bool {
    (0x30 <= b <= 0x39) || (0x41 <= b <= 0x46) || (0x61 <= b <= 0x66)
}

/// The value of an ASCII hex digit (zero for anything else).
pub open spec fn hex_val(b: u8) -> u8 {
    if 0x30 <= b <= 0x39 {
        (b - 0x30) as u8
    } else if 0x41 <= b <= 0x46 {
        (b - 0x41 + 10) as u8
    } else if 0x61 <= b <= 0x66 {
        (b - 0x61 + 10) as u8
    } else {
        0
    }
}

/// Whether `s` begins with `0x` or `0X`.
pub open spec fn has_hex_prefix(s: Seq<u8>) -> bool {
    s.len() >= 2 && s[0] == 0x30 && (s[1] == 0x78 || s[1] == 0x58)
}

/// Whether everything after the prefix is a hex digit.
pub open spec fn hex_payload_ok(s: Seq<u8>) -> bool {
    forall|i: int| 2 <= i < s.len() ==> is_hex_digit(#[trigger] s[i])
}

/// The number a big-endian string of hex digits denotes.
pub open spec fn hex_num(s: Seq<u8>) -> int
    decreases s.len(),
{
    if s.len() == 0 {
        0
    } else {
        hex_num(s.drop_last()) * 16 + hex_val(s.last())
    }
}

/// A longer digit prefix never denotes a smaller number.
proof fn lemma_hex_num_monotonic(s: Seq<u8>, i: int, j: int)
    requires
        0 <= i <= j <= s.len(),
    ensures
        hex_num(s.subrange(0, i)) <= hex_num(s.subrange(0, j)),
    decreases j - i,
{
    if i < j {
        lemma_hex_num_monotonic(s, i, j - 1);
        let p = s.subrange(0, j);
        assert(p.drop_last() =~= s.subrange(0, j - 1));
        assert(hex_num(p) == hex_num(p.drop_last()) * 16 + hex_val(p.last()));
        lemma_hex_num_nonneg(p.drop_last());
        assert(hex_num(p.drop_last()) * 16 >= hex_num(p.drop_last())) by (nonlinear_arith)
            requires
                hex_num(p.drop_last()) >= 0,
        ;
    }
}

/// A hex number is never negative.
proof fn lemma_hex_num_nonneg(s: Seq<u8>)
    ensures
        hex_num(s) >= 0,
    decreases s.len(),
{
    if s.len() > 0 {
        lemma_hex_num_nonneg(s.drop_last());
        assert(hex_num(s.drop_last()) * 16 >= 0) by (nonlinear_arith)
            requires
                hex_num(s.drop_last()) >= 0,
        ;
    }
}

/// The value of one ASCII hex digit, or nothing.
fn hex_digit(b: u8) -> (r: Option<u8>)
    ensures
        r is Some <==> is_hex_digit(b),
        r matches Some(v) ==> v == hex_val(b),
{
    if 0x30 <= b && b <= 0x39 {
        Some(b - 0x30)
    } else if 0x41 <= b && b <= 0x46 {
        Some(b - 0x41 + 10)
    } else if 0x61 <= b && b <= 0x66 {
        Some(b - 0x61 + 10)
    } else {
        None
    }
}

/// Whether a quantity string is well formed and denotes a value that fits
/// in `u64`: a `0x` prefix, at least one digit, all digits hex, value at
/// most `u64::MAX`.
pub open spec fn is_u64_quantity(s: Seq<u8>) -> bool {
    &&& has_hex_prefix(s)
    &&& s.len() > 2
    &&& hex_payload_ok(s)
    &&& hex_num(s.subrange(2, s.len() as int)) <= u64::MAX
}

/// Parse a `0x`-prefixed hex quantity into a `u64`.
pub fn decode_quantity(s: &str) -> (r: Option<u64>)
    ensures
        r is Some <==> is_u64_quantity(s.spec_bytes()),
        r matches Some(v) ==> v == hex_num(s.spec_bytes().subrange(2, s.spec_bytes().len() as int)),
{
    let b = s.as_bytes();
    let ghost sb = s.spec_bytes();
    let n = b.len();
    if n < 3 {
        return None;
    }
    if !(b[0] == 0x30 && (b[1] == 0x78 || b[1] == 0x58)) {
        return None;
    }
    let ghost payload = sb.subrange(2, sb.len() as int);
    let mut acc: u64 = 0;
    let mut i: usize = 2;
    while i < n
        invariant
            sb == s.spec_bytes(),
            b@ == sb,
            payload == sb.subrange(2, sb.len() as int),
            n == sb.len(),
            2 <= i <= n,
            forall|k: int| 2 <= k < i ==> is_hex_digit(#[trigger] sb[k]),
            acc == hex_num(sb.subrange(2, i as int)),
        decreases n - i,
    {
        let d = match hex_digit(b[i]) {
            Some(d) => d,
            None => {
                return None;
            },
        };
        if acc > (u64::MAX - d as u64) / 16 {
            proof {
                let p1 = sb.subrange(2, i + 1);
                assert(p1.drop_last() =~= sb.subrange(2, i as int));
                assert(hex_num(p1) == acc * 16 + hex_val(sb[i as int]));
                assert(acc * 16 + d > u64::MAX) by (nonlinear_arith)
                    requires
                        acc > (u64::MAX - d as u64) / 16,
                        0 <= d < 16,
                ;
                lemma_hex_num_monotonic(payload, i - 2 + 1, payload.len() as int);
                assert(payload.subrange(0, i - 2 + 1) =~= p1);
                assert(payload.subrange(0, payload.len() as int) =~= payload);
            }
            return None;
        }
        proof {
            let p1 = sb.subrange(2, i + 1);
            assert(p1.drop_last() =~= sb.subrange(2, i as int));
            assert(acc * 16 + d <= u64::MAX) by (nonlinear_arith)
                requires
                    acc <= (u64::MAX - d as u64) / 16,
                    0 <= d < 16,
            ;
        }
        acc = acc * 16 + d as u64;
        i = i + 1;
    }
    proof {
        assert(sb.subrange(2, n as int) =~= payload);
    }
    Some(acc)
}

/// Whether a byte string is well formed: a `0x` prefix, an even number of
/// hex digits.
pub open spec fn is_hex_bytes(s: Seq<u8>) -> bool {
    &&& has_hex_prefix(s)
    &&& (s.len() - 2) % 2 == 0
    &&& hex_payload_ok(s)
}

/// The bytes a well-formed byte string denotes.
pub open spec fn hex_bytes_of(s: Seq<u8>) -> Seq<u8> {
    Seq::new(((s.len() - 2) / 2) as nat, |i: int| (hex_val(s[2 + 2 * i]) * 16 + hex_val(
        s[2 + 2 * i + 1],
    )) as u8)
}

/// Parse a `0x`-prefixed hex byte string into its bytes.  An empty
/// payload yields an empty vector.
pub fn decode_hex_bytes(s: &str) -> (r: Option<Vec<u8>>)
    ensures
        r is Some <==> is_hex_bytes(s.spec_bytes()),
        r matches Some(v) ==> v@ == hex_bytes_of(s.spec_bytes()),
{
    let b = s.as_bytes();
    let ghost sb = s.spec_bytes();
    let n = b.len();
    if n < 2 {
        return None;
    }
    if !(b[0] == 0x30 && (b[1] == 0x78 || b[1] == 0x58)) {
        return None;
    }
    if (n - 2) % 2 != 0 {
        return None;
    }
    let mut out: Vec<u8> = Vec::new();
    let mut i: usize = 2;
    while i < n
        invariant
            sb == s.spec_bytes(),
            b@ == sb,
            n == sb.len(),
            (n - 2) % 2 == 0,
            2 <= i <= n,
            (i - 2) % 2 == 0,
            forall|k: int| 2 <= k < i ==> is_hex_digit(#[trigger] sb[k]),
            out@.len() == (i - 2) / 2,
            forall|k: int|
                0 <= k < out@.len() ==> #[trigger] out@[k] == (hex_val(sb[2 + 2 * k]) * 16
                    + hex_val(sb[2 + 2 * k + 1])) as u8,
        decreases n - i,
    {
        let hi_d = match hex_digit(b[i]) {
            Some(d) => d,
            None => {
                return None;
            },
        };
        let lo_d = match hex_digit(b[i + 1]) {
            Some(d) => d,
            None => {
                return None;
            },
        };
        out.push(hi_d * 16 + lo_d);
        i = i + 2;
    }
    proof {
        assert(out@ =~= hex_bytes_of(sb));
    }
    Some(out)
}

/// The character of one hex digit, in lowercase.
pub open spec fn hex_digit_char(d: int) -> char {
    if d == 0 {
        '0'
    } else if d == 1 {
        '1'
    } else if d == 2 {
        '2'
    } else if d == 3 {
        '3'
    } else if d == 4 {
        '4'
    } else if d == 5 {
        '5'
    } else if d == 6 {
        '6'
    } else if d == 7 {
        '7'
    } else if d == 8 {
        '8'
    } else if d == 9 {
        '9'
    } else if d == 10 {
        'a'
    } else if d == 11 {
        'b'
    } else if d == 12 {
        'c'
    } else if d == 13 {
        'd'
    } else if d == 14 {
        'e'
    } else {
        'f'
    }
}

/// The text of a byte string in hex: `0x`, then two digits per byte.
pub open spec fn hex_text(bytes: Seq<u8>) -> Seq<char>
    decreases bytes.len(),
{
    if bytes.len() == 0 {
        seq!['0', 'x']
    } else {
        hex_text(bytes.drop_last()).push(hex_digit_char((bytes.last() / 16) as int)).push(
            hex_digit_char((bytes.last() % 16) as int),
        )
    }
}

/// The character of one hex digit.
fn nibble_str(d: u8) -> (r: &'static str)
    requires
        d < 16,
    ensures
        r@ == seq![hex_digit_char(d as int)],
{
    match d {
        0 => {
            proof {
                reveal_strlit("0");
            }
            "0"
        },
        1 => {
            proof {
                reveal_strlit("1");
            }
            "1"
        },
        2 => {
            proof {
                reveal_strlit("2");
            }
            "2"
        },
        3 => {
            proof {
                reveal_strlit("3");
            }
            "3"
        },
        4 => {
            proof {
                reveal_strlit("4");
            }
            "4"
        },
        5 => {
            proof {
                reveal_strlit("5");
            }
            "5"
        },
        6 => {
            proof {
                reveal_strlit("6");
            }
            "6"
        },
        7 => {
            proof {
                reveal_strlit("7");
            }
            "7"
        },
        8 => {
            proof {
                reveal_strlit("8");
            }
            "8"
        },
        9 => {
            proof {
                reveal_strlit("9");
            }
            "9"
        },
        10 => {
            proof {
                reveal_strlit("a");
            }
            "a"
        },
        11 => {
            proof {
                reveal_strlit("b");
            }
            "b"
        },
        12 => {
            proof {
                reveal_strlit("c");
            }
            "c"
        },
        13 => {
            proof {
                reveal_strlit("d");
            }
            "d"
        },
        14 => {
            proof {
                reveal_strlit("e");
            }
            "e"
        },
        _ => {
            proof {
                reveal_strlit("f");
            }
            "f"
        },
    }
}

/// Render bytes as a `0x`-prefixed lowercase hex string.
pub fn encode_hex(bytes: &Vec<u8>) -> (r: String)
    ensures
        r@ == hex_text(bytes@),
{
    let mut s = String::from_str("0x");
    proof {
        reveal_strlit("0x");
        assert(s@ =~= hex_text(bytes@.subrange(0, 0)));
    }
    let mut i: usize = 0;
    while i < bytes.len()
        invariant
            i <= bytes@.len(),
            s@ == hex_text(bytes@.subrange(0, i as int)),
        decreases bytes@.len() - i,
    {
        let b = bytes[i];
        s.append(nibble_str(b / 16));
        s.append(nibble_str(b % 16));
        proof {
            let p1 = bytes@.subrange(0, i + 1);
            assert(p1.drop_last() =~= bytes@.subrange(0, i as int));
            assert(p1.last() == bytes@[i as int]);
            assert(s@ =~= hex_text(p1));
        }
        i = i + 1;
    }
    proof {
        assert(bytes@.subrange(0, bytes@.len() as int) =~= bytes@);
    }
    s
}

/// Where each character of the hex text sits: the prefix, then the high
/// and low digit of each byte.
proof fn lemma_hex_text_chars(b: Seq<u8>)
    ensures
        hex_text(b).len() == 2 + 2 * b.len(),
        hex_text(b)[0] == '0',
        hex_text(b)[1] == 'x',
        forall|k: int|
            0 <= k < b.len() ==> #[trigger] hex_text(b)[2 + 2 * k] == hex_digit_char((b[k] / 16) as int)
                && hex_text(b)[2 + 2 * k + 1] == hex_digit_char((b[k] % 16) as int),
    decreases b.len(),
{
    if b.len() > 0 {
        let dl = b.drop_last();
        lemma_hex_text_chars(dl);
        assert forall|k: int|
            0 <= k < b.len() implies #[trigger] hex_text(b)[2 + 2 * k] == hex_digit_char(
            (b[k] / 16) as int,
        ) && hex_text(b)[2 + 2 * k + 1] == hex_digit_char((b[k] % 16) as int) by {
            if k < b.len() - 1 {
                assert(hex_text(dl)[2 + 2 * k] == hex_digit_char((dl[k] / 16) as int));
                assert(dl[k] == b[k]);
            } else {
                assert(b.last() == b[k]);
            }
        }
    }
}

/// Decoding the hex text of any byte string gives the bytes back: the
/// codec round-trips.
pub proof fn lemma_hex_round_trip(bytes: Seq<u8>)
    ensures
        ({
            let s = Seq::new(hex_text(bytes).len(), |i: int| hex_text(bytes)[i] as u8);
            is_hex_bytes(s) && hex_bytes_of(s) == bytes
        }),
{
    lemma_hex_text_chars(bytes);
    let s = Seq::new(hex_text(bytes).len(), |i: int| hex_text(bytes)[i] as u8);
    assert forall|i: int| 2 <= i < s.len() implies is_hex_digit(#[trigger] s[i]) by {
        let k = (i - 2) / 2;
        if i % 2 == 0 {
            assert(i == 2 + 2 * k);
            assert(s[i] == hex_digit_char((bytes[k] / 16) as int) as u8);
        } else {
            assert(i == 2 + 2 * k + 1);
            assert(hex_text(bytes)[2 + 2 * k] == hex_digit_char((bytes[k] / 16) as int));
            assert(s[i] == hex_digit_char((bytes[k] % 16) as int) as u8);
        }
    }
    assert forall|k: int| 0 <= k < bytes.len() implies #[trigger] hex_bytes_of(s)[k]
        == bytes[k] by {
        assert(s[2 + 2 * k] == hex_digit_char((bytes[k] / 16) as int) as u8);
        assert(s[2 + 2 * k + 1] == hex_digit_char((bytes[k] % 16) as int) as u8);
        assert(hex_val(s[2 + 2 * k]) == bytes[k] / 16);
        assert(hex_val(s[2 + 2 * k + 1]) == bytes[k] % 16);
    }
    assert(hex_bytes_of(s) =~= bytes);
}

/// The hex digit values of the payload, left-padded with zeros to 64
/// nibbles.
pub open spec fn padded_nibbles(s: Seq<u8>) -> Seq<u8> {
    let digits = s.subrange(2, s.len() as int);
    Seq::new(64, |i: int| if i < 64 - digits.len() {
        0u8
    } else {
        hex_val(digits[i - (64 - digits.len())])
    })
}

/// Whether a quantity string fits a 256-bit word: a `0x` prefix, one to
/// sixty-four hex digits.
pub open spec fn is_word_quantity(s: Seq<u8>) -> bool {
    &&& has_hex_prefix(s)
    &&& 2 < s.len() <= 66
    &&& hex_payload_ok(s)
}

/// Parse a `0x`-prefixed hex quantity of up to 64 digits into a 32-byte
/// big-endian word, left-padded with zero bytes.
pub fn decode_quantity_word(s: &str) -> (r: Option<Word32>)
    ensures
        r is Some <==> is_word_quantity(s.spec_bytes()),
        r matches Some(w) ==> {
            &&& w.wf()
            &&& forall|i: int|
                0 <= i < 32 ==> w@[i] == (padded_nibbles(s.spec_bytes())[2 * i] * 16
                    + padded_nibbles(s.spec_bytes())[2 * i + 1]) as u8
        },
{
    let b = s.as_bytes();
    let ghost sb = s.spec_bytes();
    let n = b.len();
    if n < 3 || n > 66 {
        return None;
    }
    if !(b[0] == 0x30 && (b[1] == 0x78 || b[1] == 0x58)) {
        return None;
    }
    let mut nibbles: Vec<u8> = Vec::new();
    let pad = 64 - (n - 2);
    let mut p: usize = 0;
    while p < pad
        invariant
            pad == 64 - (n - 2),
            p <= pad,
            nibbles@.len() == p,
            forall|k: int| 0 <= k < p ==> nibbles@[k] == 0u8,
        decreases pad - p,
    {
        nibbles.push(0);
        p = p + 1;
    }
    let mut i: usize = 2;
    while i < n
        invariant
            sb == s.spec_bytes(),
            b@ == sb,
            n == sb.len(),
            3 <= n <= 66,
            pad == 64 - (n - 2),
            2 <= i <= n,
            nibbles@.len() == pad + (i - 2),
            forall|k: int| 2 <= k < i ==> is_hex_digit(#[trigger] sb[k]),
            forall|k: int| 0 <= k < pad ==> nibbles@[k] == 0u8,
            forall|k: int| pad <= k < nibbles@.len() ==> #[trigger] nibbles@[k] == hex_val(
                sb[2 + (k - pad)],
            ),
        decreases n - i,
    {
        let d = match hex_digit(b[i]) {
            Some(d) => d,
            None => {
                return None;
            },
        };
        nibbles.push(d);
        i = i + 1;
    }
    let mut bytes: Vec<u8> = Vec::new();
    let mut k: usize = 0;
    while k < 32
        invariant
            nibbles@.len() == 64,
            k <= 32,
            bytes@.len() == k,
            forall|j: int| 0 <= j < 64 ==> nibbles@[j] < 16,
            forall|j: int|
                0 <= j < k ==> #[trigger] bytes@[j] == (nibbles@[2 * j] * 16 + nibbles@[2 * j
                    + 1]) as u8,
        decreases 32 - k,
    {
        bytes.push(nibbles[2 * k] * 16 + nibbles[2 * k + 1]);
        k = k + 1;
    }
    let w = Word32::from_bytes(bytes);
    let w = w.unwrap();
    proof {
        assert forall|i2: int| 0 <= i2 < 32 implies w@[i2] == (padded_nibbles(sb)[2 * i2] * 16
            + padded_nibbles(sb)[2 * i2 + 1]) as u8 by {
            assert(nibbles@[2 * i2] == padded_nibbles(sb)[2 * i2]);
            assert(nibbles@[2 * i2 + 1] == padded_nibbles(sb)[2 * i2 + 1]);
        }
    }
    Some(w)
}

} // verus!
