//! UUIDs of services, characteristics and descriptors.
use vstd::prelude::*;

verus! {

/// A UUID, as the 128-bit number that its text writes in hexadecimal.
pub type Uuid = u128;

/// The number of the hexadecimal digit at place `n`, counted from the most significant one.
pub open spec fn nibble(uuid: Uuid, n: int) -> u128 {
    (uuid >> ((124 - 4 * n) as u128)) & 15
}

/// The lower-case hexadecimal digit of a number below 16.
pub open spec fn hex_digit(d: u128) -> char {
    if d < 10 {
        (48 + d) as char
    } else {
        (87 + d) as char
    }
}

/// How many digits stand before position `i` of the hyphenated form.
pub open spec fn digits_before(i: int) -> int {
    if i < 8 {
        i
    } else if i < 13 {
        i - 1
    } else if i < 18 {
        i - 2
    } else if i < 23 {
        i - 3
    } else {
        i - 4
    }
}

/// The hyphenated form of a UUID: its 32 lower-case hexadecimal digits in groups of 8, 4, 4, 4
/// and 12.
pub open spec fn hyphenated(uuid: Uuid) -> Seq<char> {
    Seq::new(
        36,
        |i: int|
            if i == 8 || i == 13 || i == 18 || i == 23 {
                '-'
            } else {
                hex_digit(nibble(uuid, digits_before(i)))
            },
    )
}

/// Calls `uuid::Uuid::from_u128` and then `to_string`. The claim is that the text is the
/// hyphenated lower-case form of the number, most significant digit first.
#[verifier::external_body]
pub(crate) fn uuid_to_string(uuid: Uuid) -> (text: String)
    ensures
        text@ == hyphenated(uuid),
{
    ::uuid::Uuid::from_u128(uuid).to_string()
}

proof fn lemma_same_digit(a: u128, b: u128)
    requires
        a < 16,
        b < 16,
        hex_digit(a) == hex_digit(b),
    ensures
        a == b,
{
}

/// Two numbers that agree in their first `n + 1` hexadecimal digits agree in what these digits
/// write.
proof fn lemma_same_leading_digits(a: u128, b: u128, n: int)
    requires
        0 <= n < 32,
        forall|k: int| 0 <= k <= n ==> #[trigger] nibble(a, k) == nibble(b, k),
    ensures
        a >> ((124 - 4 * n) as u128) == b >> ((124 - 4 * n) as u128),
    decreases n,
{
    let s = (124 - 4 * n) as u128;
    assert(nibble(a, n) == nibble(b, n));
    if n == 0 {
        assert(a >> 124 == b >> 124) by (bit_vector)
            requires
                (a >> 124) & 15 == (b >> 124) & 15,
        ;
    } else {
        lemma_same_leading_digits(a, b, n - 1);
        let t = (s + 4) as u128;
        assert(a >> s == b >> s) by (bit_vector)
            requires
                s < 124,
                t == s + 4,
                a >> t == b >> t,
                (a >> s) & 15 == (b >> s) & 15,
        ;
    }
}

/// Different UUIDs have different texts.
pub proof fn law_text_identifies_the_uuid(a: Uuid, b: Uuid)
    requires
        hyphenated(a) == hyphenated(b),
    ensures
        a == b,
{
    assert forall|n: int| 0 <= n < 32 implies #[trigger] nibble(a, n) == nibble(b, n) by {
        let i = if n < 8 {
            n
        } else if n < 12 {
            n + 1
        } else if n < 16 {
            n + 2
        } else if n < 20 {
            n + 3
        } else {
            n + 4
        };
        assert(digits_before(i) == n);
        assert(hyphenated(a)[i] == hex_digit(nibble(a, n)));
        assert(hyphenated(b)[i] == hex_digit(nibble(b, n)));
        let s = (124 - 4 * n) as u128;
        assert((a >> s) & 15 < 16) by (bit_vector);
        assert((b >> s) & 15 < 16) by (bit_vector);
        lemma_same_digit(nibble(a, n), nibble(b, n));
    }
    lemma_same_leading_digits(a, b, 31);
    assert(a == b) by (bit_vector)
        requires
            a >> 0u128 == b >> 0u128,
    ;
}

/// The number of a hexadecimal digit.
pub open spec fn digit_value(c: char) -> int {
    if '0' <= c && c <= '9' {
        c as int - 48
    } else {
        c as int - 87
    }
}

/// The number that the first `n` characters of a text write in hexadecimal, hyphens left out.
pub open spec fn written_number(text: Seq<char>, n: int) -> int
    decreases n,
{
    if n <= 0 {
        0
    } else if text[n - 1] == '-' {
        written_number(text, n - 1)
    } else {
        16 * written_number(text, n - 1) + digit_value(text[n - 1])
    }
}

/// A character of the text of a UUID is a lower-case hexadecimal digit.
pub open spec fn is_hex_digit(c: char) -> bool {
    ('0' <= c && c <= '9') || ('a' <= c && c <= 'f')
}

/// How many digits the first `n` characters of the hyphenated form hold.
spec fn digits_in(n: int) -> int {
    if n <= 8 {
        n
    } else if n <= 13 {
        n - 1
    } else if n <= 18 {
        n - 2
    } else if n <= 23 {
        n - 3
    } else {
        n - 4
    }
}

proof fn lemma_written_prefix(uuid: Uuid, n: int)
    requires
        0 <= n <= 36,
    ensures
        n == 0 ==> written_number(hyphenated(uuid), n) == 0,
        n > 0 ==> written_number(hyphenated(uuid), n) == uuid >> ((128 - 4 * digits_in(
            n,
        )) as u128),
    decreases n,
{
    if n > 0 {
        lemma_written_prefix(uuid, n - 1);
        let text = hyphenated(uuid);
        let c = text[n - 1];
        if n - 1 == 8 || n - 1 == 13 || n - 1 == 18 || n - 1 == 23 {
            assert(c == '-');
            assert(digits_in(n) == digits_in(n - 1));
        } else {
            let d = digits_before(n - 1);
            assert(digits_in(n) == d + 1 && digits_in(n - 1) == d);
            let s = (124 - 4 * d) as u128;
            let v = nibble(uuid, d);
            assert((uuid >> s) & 15 < 16) by (bit_vector);
            assert(c == hex_digit(v));
            assert(digit_value(c) == v);
            assert(c != '-');
            if n == 1 {
                assert(s == 124);
                assert(uuid >> 124 == (uuid >> 124) & 15) by (bit_vector);
            } else {
                let t = (s + 4) as u128;
                assert(uuid >> s == 16 * (uuid >> t) + ((uuid >> s) & 15)) by (bit_vector)
                    requires
                        s < 124,
                        t == s + 4,
                ;
            }
        }
    }
}

/// The text of a UUID writes its number: 36 characters, hyphens after 8, 12, 16 and 20 digits, all
/// others lower-case hexadecimal digits, which write the number from its most significant digit on.
pub proof fn law_text_writes_the_uuid(uuid: Uuid)
    ensures
        hyphenated(uuid).len() == 36,
        forall|i: int|
            0 <= i < 36 ==> if i == 8 || i == 13 || i == 18 || i == 23 {
                #[trigger] hyphenated(uuid)[i] == '-'
            } else {
                is_hex_digit(hyphenated(uuid)[i])
            },
        written_number(hyphenated(uuid), 36) == uuid,
{
    lemma_written_prefix(uuid, 36);
    assert(uuid >> 0u128 == uuid) by (bit_vector);
    assert forall|i: int| 0 <= i < 36 implies if i == 8 || i == 13 || i == 18 || i == 23 {
        #[trigger] hyphenated(uuid)[i] == '-'
    } else {
        is_hex_digit(hyphenated(uuid)[i])
    } by {
        let s = (124 - 4 * digits_before(i)) as u128;
        assert((uuid >> s) & 15 < 16) by (bit_vector);
    }
}

} // verus!
