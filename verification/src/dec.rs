//! Decimal text: parsing unsigned decimal numbers out of byte ranges,
//! with exact overflow behaviour.

use vstd::prelude::*;

use vstd::string::StringSliceAdditionalSpecFns;

verus! {

/// Whether `b` is an ASCII decimal digit.
pub open spec fn is_dec_digit(b: u8) -> bool {
    0x30 <= b <= 0x39
}

/// The value of an ASCII decimal digit (zero for anything else).
pub open spec fn dec_val(b: u8) -> u8 {
    if 0x30 <= b <= 0x39 {
        (b - 0x30) as u8
    } else {
        0
    }
}

/// The number a big-endian string of decimal digits denotes.
pub open spec fn dec_num(s: Seq<u8>) -> int
    decreases s.len(),
{
    if s.len() == 0 {
        0
    } else {
        dec_num(s.drop_last()) * 10 + dec_val(s.last())
    }
}

/// Whether `s` is a non-empty, all-digit decimal string.
pub open spec fn is_dec_seq(s: Seq<u8>) -> bool {
    s.len() >= 1 && (forall|i: int| 0 <= i < s.len() ==> is_dec_digit(#[trigger] s[i]))
}

/// A decimal number is never negative.
proof fn lemma_dec_num_nonneg(s: Seq<u8>)
    ensures
        dec_num(s) >= 0,
    decreases s.len(),
{
    if s.len() > 0 {
        lemma_dec_num_nonneg(s.drop_last());
        assert(dec_num(s.drop_last()) * 10 >= 0) by (nonlinear_arith)
            requires
                dec_num(s.drop_last()) >= 0,
        ;
    }
}

/// A longer digit prefix never denotes a smaller number.
proof fn lemma_dec_num_monotonic(s: Seq<u8>, i: int, j: int)
    requires
        0 <= i <= j <= s.len(),
    ensures
        dec_num(s.subrange(0, i)) <= dec_num(s.subrange(0, j)),
    decreases j - i,
{
    if i < j {
        lemma_dec_num_monotonic(s, i, j - 1);
        let p = s.subrange(0, j);
        assert(p.drop_last() =~= s.subrange(0, j - 1));
        assert(dec_num(p) == dec_num(p.drop_last()) * 10 + dec_val(p.last()));
        lemma_dec_num_nonneg(p.drop_last());
        assert(dec_num(p.drop_last()) * 10 >= dec_num(p.drop_last())) by (nonlinear_arith)
            requires
                dec_num(p.drop_last()) >= 0,
        ;
    }
}

/// Parse `b[start..end]` as a decimal number of at most `max`.  Fails on
/// an empty range, a non-digit, or a value above `max`.
pub fn parse_dec_range(b: &[u8], start: usize, end: usize, max: u64) -> (r: Option<u64>)
    requires
        start <= end <= b@.len(),
    ensures
        r is Some <==> (is_dec_seq(b@.subrange(start as int, end as int)) && dec_num(
            b@.subrange(start as int, end as int),
        ) <= max),
        r matches Some(v) ==> v == dec_num(b@.subrange(start as int, end as int)) && v <= max,
{
    let ghost part = b@.subrange(start as int, end as int);
    if start == end {
        return None;
    }
    let mut acc: u64 = 0;
    let mut i: usize = start;
    while i < end
        invariant
            part == b@.subrange(start as int, end as int),
            start <= i <= end <= b@.len(),
            forall|k: int| start <= k < i ==> is_dec_digit(#[trigger] b@[k]),
            acc == dec_num(b@.subrange(start as int, i as int)),
            acc <= max,
        decreases end - i,
    {
        let c = b[i];
        if !(0x30 <= c && c <= 0x39) {
            proof {
                assert(part[i - start] == b@[i as int]);
            }
            return None;
        }
        let d: u64 = (c - 0x30) as u64;
        proof {
            let p1 = b@.subrange(start as int, i + 1);
            assert(p1.drop_last() =~= b@.subrange(start as int, i as int));
            assert(dec_num(p1) == acc * 10 + dec_val(b@[i as int]));
        }
        if d > max || acc > (max - d) / 10 {
            proof {
                assert(acc * 10 + d > max) by (nonlinear_arith)
                    requires
                        d > max || acc > (max - d) / 10,
                        0 <= acc,
                        0 <= d < 10,
                        max >= 0,
                ;
                lemma_dec_num_monotonic(part, i - start + 1, part.len() as int);
                assert(part.subrange(0, i - start + 1) =~= b@.subrange(start as int, i + 1));
                assert(part.subrange(0, part.len() as int) =~= part);
            }
            return None;
        }
        proof {
            assert(acc * 10 + d <= max) by (nonlinear_arith)
                requires
                    acc <= (max - d) / 10,
                    0 <= d < 10,
                    0 <= max,
            ;
        }
        acc = acc * 10 + d;
        i = i + 1;
    }
    proof {
        assert(b@.subrange(start as int, end as int) =~= part);
    }
    Some(acc)
}

/// The character of one decimal digit.
pub open spec fn digit_char(d: int) -> char {
    if d == 0 {
        '0'
    } else if d == 1 {
        '1'
    } else if d == 2 {
        '2'
    } else if d == 3 {
        '3'
    } else if d == 4 {
        '4'
    } else if d == 5 {
        '5'
    } else if d == 6 {
        '6'
    } else if d == 7 {
        '7'
    } else if d == 8 {
        '8'
    } else {
        '9'
    }
}

/// The decimal digits of `n`, most significant first (just `0` for zero).
pub open spec fn dec_chars(n: int) -> Seq<char>
    decreases n
        when n >= 0
{
    if n < 10 {
        seq![digit_char(n)]
    } else {
        dec_chars(n / 10).push(digit_char(n % 10))
    }
}

/// The character of one decimal digit.
fn digit_str(d: u64) -> (r: &'static str)
    requires
        d < 10,
    ensures
        r@ == seq![digit_char(d as int)],
{
    match d {
        0 => {
            proof {
                reveal_strlit("0");
            }
            "0"
        },
        1 => {
            proof {
                reveal_strlit("1");
            }
            "1"
        },
        2 => {
            proof {
                reveal_strlit("2");
            }
            "2"
        },
        3 => {
            proof {
                reveal_strlit("3");
            }
            "3"
        },
        4 => {
            proof {
                reveal_strlit("4");
            }
            "4"
        },
        5 => {
            proof {
                reveal_strlit("5");
            }
            "5"
        },
        6 => {
            proof {
                reveal_strlit("6");
            }
            "6"
        },
        7 => {
            proof {
                reveal_strlit("7");
            }
            "7"
        },
        8 => {
            proof {
                reveal_strlit("8");
            }
            "8"
        },
        _ => {
            proof {
                reveal_strlit("9");
            }
            "9"
        },
    }
}

/// Render `n` in decimal.
pub fn u64_to_string(n: u64) -> (r: String)
    ensures
        r@ == dec_chars(n as int),
    decreases n,
{
    let d = digit_str(n % 10);
    if n < 10 {
        String::from_str(d)
    } else {
        let mut s = u64_to_string(n / 10);
        s.append(d);
        s
    }
}

/// Whether `s` denotes a decimal number that fits in `u64`.
pub open spec fn is_u64_decimal(s: Seq<u8>) -> bool {
    is_dec_seq(s) && dec_num(s) <= u64::MAX
}

/// Parse a whole string as a decimal `u64`.
pub fn decode_decimal(s: &str) -> (r: Option<u64>)
    ensures
        r is Some <==> is_u64_decimal(s.spec_bytes()),
        r matches Some(v) ==> v == dec_num(s.spec_bytes()),
{
    let b = s.as_bytes();
    let r = parse_dec_range(b, 0, b.len(), u64::MAX);
    proof {
        assert(b@.subrange(0, b@.len() as int) =~= s.spec_bytes());
    }
    r
}

} // verus!
