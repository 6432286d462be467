//! The identifier subsystem: generation and validation of opaque 128-bit
//! entity identifiers, and their canonical textual form (32 hexadecimal
//! digits in the usual 8-4-4-4-12 hyphenated grouping).

use vstd::arithmetic::power2::pow2;
use vstd::prelude::*;

verus! {

/// True exactly when the structural version tag of a 128-bit identifier
/// value (the high nibble of its seventh byte) is the tag reserved for
/// randomly generated identifiers.
pub open spec fn is_random_variant(value: u128) -> bool {
    (value >> 76) & 0xf == 4
}

/// Relies on `uuid::Uuid::new_v4` (read back through `as_u128`): whatever
/// the random source yields, the constructor forces the version nibble of
/// the value to the randomly-generated tag.
#[verifier::external_body]
pub fn generate() -> (r: u128)
    ensures
        is_random_variant(r),
{
    uuid::Uuid::new_v4().as_u128()
}

/// Checks the structural version tag of a raw identifier value: true
/// exactly for values of the randomly generated kind. Syntactic
/// well-formedness of a textual identifier and validity of its tag are
/// independent; this check is never implied by parsing.
pub fn validate(value: u128) -> (r: bool)
    ensures
        r == is_random_variant(value),
{
    (value >> 76) & 0xf == 4
}

/// Malformed textual identifier: wrong length, an unexpected character,
/// or hyphens out of place. Raised only at the text-decoding boundary.
#[derive(Clone, Copy, Debug, PartialEq, Eq, Structural)]
pub struct ParseError;

/// The positions of the four hyphens in the canonical 36-character form.
pub open spec fn hyphen_position(j: int) -> bool {
    j == 8 || j == 13 || j == 18 || j == 23
}

/// How many hyphens stand before position `j` of the canonical form.
pub open spec fn hyphens_before(j: int) -> int {
    if j <= 8 {
        0
    } else if j <= 13 {
        1
    } else if j <= 18 {
        2
    } else if j <= 23 {
        3
    } else {
        4
    }
}

/// The index, among the 32 hexadecimal digits, of the digit standing at
/// (non-hyphen) position `j` of the canonical form.
pub open spec fn digit_index(j: int) -> int {
    j - hyphens_before(j)
}

/// The position in the canonical form of the `i`-th hexadecimal digit.
pub open spec fn digit_position(i: int) -> int {
    if i < 8 {
        i
    } else if i < 12 {
        i + 1
    } else if i < 16 {
        i + 2
    } else if i < 20 {
        i + 3
    } else {
        i + 4
    }
}

/// The `i`-th nibble of `value`, counting from the most significant.
pub open spec fn nibble(value: u128, i: int) -> u128 {
    (value >> ((124 - 4 * i) as u32)) & 0xf
}

/// The lowercase hexadecimal digit character for `n` (meaningful for `n < 16`).
pub open spec fn hex_char(n: u128) -> char {
    if n < 10 {
        ((48 + n) as u8) as char
    } else {
        ((87 + n) as u8) as char
    }
}

/// Whether `c` is a hexadecimal digit (either case).
pub open spec fn is_hex_char(c: char) -> bool {
    let u = c as u32;
    (48 <= u && u <= 57) || (65 <= u && u <= 70) || (97 <= u && u <= 102)
}

/// The numeric value of a hexadecimal digit character (meaningful when
/// `is_hex_char(c)`).
pub open spec fn hex_value(c: char) -> u128 {
    let u = c as u32;
    if 48 <= u && u <= 57 {
        (u - 48) as u128
    } else if 65 <= u && u <= 70 {
        (u - 55) as u128
    } else {
        (u - 87) as u128
    }
}

/// The canonical textual form of a 128-bit identifier value: its 32
/// nibbles as lowercase hexadecimal digits, hyphenated 8-4-4-4-12.
pub open spec fn encoded(value: u128) -> Seq<char> {
    Seq::new(
        36,
        |j: int|
            if hyphen_position(j) {
                '-'
            } else {
                hex_char(nibble(value, digit_index(j)))
            },
    )
}

/// Whether `s` matches the canonical grouping, length and character set.
pub open spec fn is_canonical(s: Seq<char>) -> bool {
    &&& s.len() == 36
    &&& forall|j: int| 0 <= j < 36 && hyphen_position(j) ==> s[j] == '-'
    &&& forall|j: int| 0 <= j < 36 && !hyphen_position(j) ==> is_hex_char(s[j])
}

/// The 32 digit characters of a canonical form, most significant first.
pub open spec fn digit_chars(s: Seq<char>) -> Seq<char> {
    Seq::new(32, |i: int| s[digit_position(i)])
}

/// The number denoted by a sequence of hexadecimal digit characters,
/// most significant first.
pub open spec fn combined(d: Seq<char>) -> int
    decreases d.len(),
{
    if d.len() == 0 {
        0
    } else {
        combined(d.drop_last()) * 16 + hex_value(d.last())
    }
}

/// The 128-bit value denoted by a canonical textual form.
pub open spec fn decoded(s: Seq<char>) -> int {
    combined(digit_chars(s))
}

/// Relies on `String::push`: appends exactly the one given character.
#[verifier::external_body]
fn push_char(s: &mut String, c: char)
    ensures
        final(s)@ == old(s)@.push(c),
{
    s.push(c);
}

/// Renders `value` in the canonical hyphenated hexadecimal form.
pub fn encode(value: u128) -> (r: String)
    ensures
        r@ == encoded(value),
{
    let mut r = String::new();
    let mut j: usize = 0;
    let mut d: u32 = 0;
    while j < 36
        invariant
            j <= 36,
            d as int == digit_index(j as int),
            r@ =~= encoded(value).take(j as int),
        decreases 36 - j,
    {
        if j == 8 || j == 13 || j == 18 || j == 23 {
            push_char(&mut r, '-');
        } else {
            let shift: u32 = 124 - 4 * d;
            let n: u128 = (value >> shift) & 0xf;
            proof {
                assert((value >> shift) & 0xf < 16) by (bit_vector);
                assert(n == nibble(value, d as int));
            }
            let c: u8 = if n < 10 {
                48 + (n as u8)
            } else {
                87 + (n as u8)
            };
            proof {
                assert(c as char == hex_char(n));
            }
            push_char(&mut r, c as char);
            d += 1;
        }
        j += 1;
        proof {
            assert(r@ =~= encoded(value).take(j as int));
        }
    }
    proof {
        assert(r@ =~= encoded(value));
    }
    r
}

/// Digit positions and hyphen positions tile the canonical form: the two
/// index maps are mutually inverse where they are defined.
proof fn lemma_positions(j: int, i: int)
    ensures
        0 <= j < 36 && !hyphen_position(j) ==> {
            &&& 0 <= digit_index(j) < 32
            &&& digit_position(digit_index(j)) == j
        },
        0 <= i < 32 ==> {
            &&& 0 <= digit_position(i) < 36
            &&& !hyphen_position(digit_position(i))
            &&& digit_index(digit_position(i)) == i
        },
{
}

/// A sequence of hexadecimal digit characters denotes a number below
/// `16^len`, stated through powers of two.
proof fn lemma_combined_bound(d: Seq<char>)
    requires
        forall|t: int| 0 <= t < d.len() ==> is_hex_char(#[trigger] d[t]),
    ensures
        0 <= combined(d) < pow2((4 * d.len()) as nat),
    decreases d.len(),
{
    vstd::arithmetic::power2::lemma2_to64();
    if d.len() == 0 {
    } else {
        lemma_combined_bound(d.drop_last());
        vstd::arithmetic::power2::lemma_pow2_adds((4 * (d.len() - 1)) as nat, 4);
        assert(hex_value(d.last()) < 16);
    }
}

/// Parses the canonical hyphenated hexadecimal form; `None` exactly on
/// strings that do not match it.
pub fn decode(s: &str) -> (r: Option<u128>)
    ensures
        match r {
            Some(v) => is_canonical(s@) && v as int == decoded(s@),
            None => !is_canonical(s@),
        },
{
    let n = s.unicode_len();
    if n != 36 {
        return None;
    }
    let mut val: u128 = 0;
    let mut j: usize = 0;
    let mut d: u32 = 0;
    proof {
        vstd::arithmetic::power2::lemma2_to64();
    }
    while j < 36
        invariant
            s@.len() == 36,
            j <= 36,
            d as int == digit_index(j as int),
            forall|t: int| 0 <= t < j && hyphen_position(t) ==> s@[t] == '-',
            forall|t: int| 0 <= t < j && !hyphen_position(t) ==> is_hex_char(#[trigger] s@[t]),
            val as int == combined(digit_chars(s@).take(d as int)),
            val < pow2((4 * d) as nat),
        decreases 36 - j,
    {
        let c = s.get_char(j);
        if j == 8 || j == 13 || j == 18 || j == 23 {
            if c != '-' {
                proof {
                    assert(hyphen_position(j as int) && s@[j as int] != '-');
                    assert(!is_canonical(s@));
                }
                return None;
            }
        } else {
            let u = c as u32;
            let h: u32;
            if 48 <= u && u <= 57 {
                h = u - 48;
            } else if 65 <= u && u <= 70 {
                h = u - 55;
            } else if 97 <= u && u <= 102 {
                h = u - 87;
            } else {
                proof {
                    assert(!hyphen_position(j as int) && !is_hex_char(s@[j as int]));
                    assert(!is_canonical(s@));
                }
                return None;
            }
            proof {
                lemma_positions(j as int, d as int);
                lemma_combined_bound(digit_chars(s@).take(d as int + 1));
                assert(digit_chars(s@).take(d as int + 1).drop_last() =~= digit_chars(s@).take(
                    d as int,
                ));
                assert(digit_chars(s@).take(d as int + 1).last() == s@[j as int]);
                vstd::arithmetic::power2::lemma2_to64();
                vstd::arithmetic::power2::lemma_pow2_adds((4 * d) as nat, 4);
                if d < 31 {
                    vstd::arithmetic::power2::lemma_pow2_strictly_increases(
                        (4 * d + 4) as nat,
                        128,
                    );
                }
                vstd::arithmetic::power2::lemma_pow2_adds(64, 64);
                assert(pow2(64) * pow2(64) == 0x100000000000000000000000000000000int)
                    by (nonlinear_arith)
                    requires
                        pow2(64) == 0x10000000000000000,
                ;
            }
            val = val * 16 + (h as u128);
            d += 1;
        }
        j += 1;
    }
    proof {
        assert(digit_chars(s@).take(32) =~= digit_chars(s@));
        assert(is_canonical(s@));
    }
    Some(val)
}

/// Rendering a nibble as a hexadecimal digit and reading it back is the
/// identity, and the rendered character is always a hexadecimal digit.
proof fn lemma_hex_char_inverse(n: u128)
    requires
        n < 16,
    ensures
        is_hex_char(hex_char(n)),
        hex_value(hex_char(n)) == n,
{
}

/// Reading the first `k` nibbles of `value`, most significant first,
/// yields the top `4 * k` bits of `value`.
proof fn lemma_combined_nibbles(value: u128, k: int)
    requires
        1 <= k <= 32,
    ensures
        combined(Seq::new(32, |i: int| hex_char(nibble(value, i))).take(k)) == value >> ((128 - 4
            * k) as u32),
    decreases k,
{
    let nibs = Seq::new(32, |i: int| hex_char(nibble(value, i)));
    assert forall|i: int| 0 <= i < 32 implies (#[trigger] nibble(value, i)) < 16 by {
        let s = (124 - 4 * i) as u32;
        assert((value >> s) & 0xf < 16) by (bit_vector);
    }
    if k == 1 {
        assert(nibs.take(1).drop_last() =~= Seq::<char>::empty());
        lemma_hex_char_inverse(nibble(value, 0));
        assert(value >> 124u32 == (value >> 124u32) & 0xf) by (bit_vector);
        assert(combined(nibs.take(1)) == combined(nibs.take(1).drop_last()) * 16 + hex_value(
            nibs.take(1).last(),
        ));
    } else {
        lemma_combined_nibbles(value, k - 1);
        assert(nibs.take(k).drop_last() =~= nibs.take(k - 1));
        lemma_hex_char_inverse(nibble(value, k - 1));
        let m = (128 - 4 * k) as u32;
        let m4 = (128 - 4 * (k - 1)) as u32;
        assert(value >> m == (value >> m4) * 16 + ((value >> m) & 0xf)) by (bit_vector)
            requires
                m <= 120 && m4 == m + 4,
        ;
        assert(nibble(value, k - 1) == (value >> m) & 0xf);
    }
}

/// The canonical textual form is lossless: for every 128-bit value, the
/// rendered text is canonical and decodes to the value itself. Together
/// with the contracts of `encode` and `decode` this is the exact
/// round-trip law for identifiers, independent of their structural tag.
pub proof fn lemma_round_trip(value: u128)
    ensures
        is_canonical(encoded(value)),
        decoded(encoded(value)) == value,
{
    let e = encoded(value);
    assert forall|i: int| 0 <= i < 32 implies (#[trigger] nibble(value, i)) < 16 by {
        let s = (124 - 4 * i) as u32;
        assert((value >> s) & 0xf < 16) by (bit_vector);
    }
    assert forall|j: int| 0 <= j < 36 && !hyphen_position(j) implies is_hex_char(#[trigger] e[j]) by {
        lemma_positions(j, 0);
        lemma_hex_char_inverse(nibble(value, digit_index(j)));
    }
    assert(is_canonical(e));
    assert forall|i: int| 0 <= i < 32 implies #[trigger] digit_chars(e)[i] == hex_char(
        nibble(value, i),
    ) by {
        lemma_positions(0, i);
    }
    let nibs = Seq::new(32, |i: int| hex_char(nibble(value, i)));
    assert(digit_chars(e) =~= nibs);
    lemma_combined_nibbles(value, 32);
    assert(nibs.take(32) =~= nibs);
    assert(value >> 0u32 == value) by (bit_vector);
}

} // verus!
