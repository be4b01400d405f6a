//! Small text-building helpers shared by the protocol and log formatting code.
use vstd::prelude::*;

verus! {

/// The character of a single decimal digit.
pub open spec fn digit_char(d: nat) -> char {
    ((48 + d) as u32) as char
}

/// The shortest decimal rendering of `n`, most significant digit first.
pub open spec fn decimal(n: nat) -> Seq<char>
    decreases n,
{
    if n < 10 {
        seq![digit_char(n)]
    } else {
        decimal(n / 10).push(digit_char(n % 10))
    }
}

/// The decimal rendering of a signed number: a leading '-' for negative values.
pub open spec fn signed_decimal(n: int) -> Seq<char> {
    if n < 0 {
        seq!['-'] + decimal((-n) as nat)
    } else {
        decimal(n as nat)
    }
}

/// Appends one character (`String::push`).
#[verifier::external_body]
pub(crate) fn push_char(s: &mut String, c: char)
    ensures
        final(s)@ == old(s)@.push(c),
{
    s.push(c)
}

/// The text of one decimal digit.
fn digit_text(d: u64) -> (s: &'static str)
    requires
        d < 10,
    ensures
        s@ == seq![digit_char(d as nat)],
{
    match d {
        0 => {
            proof {
                reveal_strlit("0");
            }
            "0"
        },
        1 => {
            proof {
                reveal_strlit("1");
            }
            "1"
        },
        2 => {
            proof {
                reveal_strlit("2");
            }
            "2"
        },
        3 => {
            proof {
                reveal_strlit("3");
            }
            "3"
        },
        4 => {
            proof {
                reveal_strlit("4");
            }
            "4"
        },
        5 => {
            proof {
                reveal_strlit("5");
            }
            "5"
        },
        6 => {
            proof {
                reveal_strlit("6");
            }
            "6"
        },
        7 => {
            proof {
                reveal_strlit("7");
            }
            "7"
        },
        8 => {
            proof {
                reveal_strlit("8");
            }
            "8"
        },
        _ => {
            proof {
                reveal_strlit("9");
            }
            "9"
        },
    }
}

/// Appends the decimal rendering of `n` to `s`.
pub fn push_decimal(s: &mut String, n: u64)
    ensures
        final(s)@ == old(s)@ + decimal(n as nat),
    decreases n,
{
    if n >= 10 {
        push_decimal(s, n / 10);
    }
    let d = digit_text(n % 10);
    s.append(d);
    assert(decimal(n as nat) == if n < 10 { seq![digit_char(n as nat)] } else {
        decimal((n / 10) as nat).push(digit_char((n % 10) as nat))
    });
}

/// Appends the decimal rendering of a signed `n` to `s`.
pub fn push_signed_decimal(s: &mut String, n: i64)
    ensures
        final(s)@ == old(s)@ + signed_decimal(n as int),
{
    if n < 0 {
        proof {
            reveal_strlit("-");
        }
        s.append("-");
        let magnitude: u64 = if n == i64::MIN {
            9223372036854775808u64
        } else {
            (-n) as u64
        };
        push_decimal(s, magnitude);
    } else {
        push_decimal(s, n as u64);
    }
}

/// The decimal rendering of `n` as a new string.
pub fn decimal_string(n: u64) -> (s: String)
    ensures
        s@ == decimal(n as nat),
{
    let mut s = String::new();
    push_decimal(&mut s, n);
    s
}

/// Whether a character is a lower-case hexadecimal digit.
pub open spec fn is_lower_hex(c: char) -> bool {
    ('0' <= c <= '9') || ('a' <= c <= 'f')
}

/// The hyphenated lower-case text of a random (version 4) UUID: 36 characters,
/// hyphens at positions 8, 13, 18 and 23, hexadecimal digits elsewhere, the
/// version digit '4' at position 14 and a variant digit 8, 9, a or b at position 19.
pub open spec fn is_random_uuid_text(s: Seq<char>) -> bool {
    &&& s.len() == 36
    &&& forall|i: int|
        0 <= i < 36 ==> if i == 8 || i == 13 || i == 18 || i == 23 {
            s[i] == '-'
        } else {
            is_lower_hex(#[trigger] s[i])
        }
    &&& s[14] == '4'
    &&& (s[19] == '8' || s[19] == '9' || s[19] == 'a' || s[19] == 'b')
}

/// The lower-case hexadecimal digit of a value below 16.
pub open spec fn hex_digit(n: nat) -> char {
    if n < 10 {
        ((48 + n) as u32) as char
    } else {
        ((87 + n) as u32) as char
    }
}

/// Two lower-case hexadecimal digits per byte, most significant first.
pub open spec fn hex_bytes(b: Seq<u8>) -> Seq<char>
    decreases b.len(),
{
    if b.len() == 0 {
        Seq::empty()
    } else {
        hex_bytes(b.drop_last()) + seq![hex_digit((b.last() / 16) as nat), hex_digit((b.last() % 16) as nat)]
    }
}

/// The bytes of a random (version 4, RFC 4122 variant) UUID made from 16
/// random bytes: the version nibble of byte 6 set to 4 and the two top bits
/// of byte 8 set to `10`.
pub open spec fn random_uuid_bytes(b: Seq<u8>) -> Seq<u8> {
    b.update(6, (b[6] & 0x0fu8) | 0x40u8).update(8, (b[8] & 0x3fu8) | 0x80u8)
}

/// The hyphenated lower-case text of the UUID with bytes `b`: groups of 4,
/// 2, 2, 2 and 6 bytes in hexadecimal, joined by hyphens.
pub open spec fn uuid_text(b: Seq<u8>) -> Seq<char> {
    hex_bytes(b.subrange(0, 4)) + seq!['-'] + hex_bytes(b.subrange(4, 6)) + seq!['-'] + hex_bytes(
        b.subrange(6, 8),
    ) + seq!['-'] + hex_bytes(b.subrange(8, 10)) + seq!['-'] + hex_bytes(b.subrange(10, 16))
}

/// The hyphenated text of the random UUID built from `random_bytes`
/// (`uuid::Builder::from_random_bytes`, then `hyphenated`): the bytes with
/// the version and variant bits set, in lower-case hexadecimal.
#[verifier::external_body]
pub(crate) fn random_uuid_text(random_bytes: [u8; 16]) -> (s: String)
    ensures
        s@ == uuid_text(random_uuid_bytes(random_bytes@)),
{
    uuid::Builder::from_random_bytes(random_bytes).into_uuid().hyphenated().to_string()
}

/// Two hexadecimal digits per byte.
proof fn lemma_hex_bytes(b: Seq<u8>)
    ensures
        hex_bytes(b).len() == 2 * b.len(),
        forall|k: int| 0 <= k < b.len() ==> hex_bytes(b)[2 * k] == hex_digit((b[k] / 16) as nat)
            && hex_bytes(b)[2 * k + 1] == hex_digit((b[k] % 16) as nat),
    decreases b.len(),
{
    if b.len() > 0 {
        lemma_hex_bytes(b.drop_last());
        assert forall|k: int| 0 <= k < b.len() implies hex_bytes(b)[2 * k] == hex_digit(
            (b[k] / 16) as nat,
        ) && hex_bytes(b)[2 * k + 1] == hex_digit((b[k] % 16) as nat) by {
            if k < b.len() - 1 {
                assert(b.drop_last()[k] == b[k]);
            }
        }
    }
}

/// A hexadecimal digit is a lower-case hexadecimal character.
proof fn lemma_hex_digit(n: nat)
    requires
        n < 16,
    ensures
        is_lower_hex(hex_digit(n)),
{
}

/// The text of a UUID built from any 16 random bytes has the shape of a
/// random UUID: the version digit 4 and a variant digit 8, 9, a or b.
pub proof fn law_random_uuid_shape(b: Seq<u8>)
    requires
        b.len() == 16,
    ensures
        is_random_uuid_text(uuid_text(random_uuid_bytes(b))),
{
    let r = random_uuid_bytes(b);
    let t = uuid_text(r);
    lemma_hex_bytes(r.subrange(0, 4));
    lemma_hex_bytes(r.subrange(4, 6));
    lemma_hex_bytes(r.subrange(6, 8));
    lemma_hex_bytes(r.subrange(8, 10));
    lemma_hex_bytes(r.subrange(10, 16));
    let b6 = b[6];
    let b8 = b[8];
    assert(((b6 & 0x0fu8) | 0x40u8) / 16 == 4) by (bit_vector);
    assert(((b8 & 0x3fu8) | 0x80u8) / 16 >= 8 && ((b8 & 0x3fu8) | 0x80u8) / 16 <= 11) by (bit_vector);
    assert forall|i: int| 0 <= i < 36 implies if i == 8 || i == 13 || i == 18 || i == 23 {
        t[i] == '-'
    } else {
        is_lower_hex(#[trigger] t[i])
    } by {
        if i < 8 {
            let k = i / 2;
            lemma_hex_digit((r.subrange(0, 4)[k] / 16) as nat);
            lemma_hex_digit((r.subrange(0, 4)[k] % 16) as nat);
        } else if 8 < i < 13 {
            let k = (i - 9) / 2;
            lemma_hex_digit((r.subrange(4, 6)[k] / 16) as nat);
            lemma_hex_digit((r.subrange(4, 6)[k] % 16) as nat);
        } else if 13 < i < 18 {
            let k = (i - 14) / 2;
            lemma_hex_digit((r.subrange(6, 8)[k] / 16) as nat);
            lemma_hex_digit((r.subrange(6, 8)[k] % 16) as nat);
        } else if 18 < i < 23 {
            let k = (i - 19) / 2;
            lemma_hex_digit((r.subrange(8, 10)[k] / 16) as nat);
            lemma_hex_digit((r.subrange(8, 10)[k] % 16) as nat);
        } else if 23 < i {
            let k = (i - 24) / 2;
            lemma_hex_digit((r.subrange(10, 16)[k] / 16) as nat);
            lemma_hex_digit((r.subrange(10, 16)[k] % 16) as nat);
        }
    }
    assert(r[6] == (b6 & 0x0fu8) | 0x40u8);
    assert(r[8] == (b8 & 0x3fu8) | 0x80u8);
    assert(t[14] == hex_digit((r.subrange(6, 8)[0] / 16) as nat));
    assert(t[19] == hex_digit((r.subrange(8, 10)[0] / 16) as nat));
}

} // verus!
