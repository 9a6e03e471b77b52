//! Text: what is sent to and received from a characteristic, and the order of addresses.
use vstd::prelude::*;
use vstd::utf8::{decode_utf8, encode_utf8, encode_utf8_decode_utf8, encode_utf8_valid_utf8, valid_utf8};

use core::cmp::Ordering;

verus! {

/// `a` stands before `b` in the dictionary order of code points: the texts agree up to some
/// place, and there `a` ends or has the smaller code point.
pub open spec fn text_precedes(a: Seq<char>, b: Seq<char>) -> bool {
    exists|i: int| #[trigger] first_difference(a, b, i) && differs_below(a, b, i)
}

/// `a` and `b` agree before place `i`, and `i` lies in both of them or at the end of one.
pub open spec fn first_difference(a: Seq<char>, b: Seq<char>, i: int) -> bool {
    &&& 0 <= i <= a.len()
    &&& i <= b.len()
    &&& forall|j: int| 0 <= j < i ==> a[j] == b[j]
}

/// At place `i`, `a` ends before `b` does or has the smaller code point.
pub open spec fn differs_below(a: Seq<char>, b: Seq<char>, i: int) -> bool {
    if i < a.len() {
        i < b.len() && (a[i] as int) < (b[i] as int)
    } else {
        i < b.len()
    }
}

/// The order of two texts.
pub open spec fn text_order(a: Seq<char>, b: Seq<char>) -> Ordering {
    if text_precedes(a, b) {
        Ordering::Less
    } else if a == b {
        Ordering::Equal
    } else {
        Ordering::Greater
    }
}

/// Calls `String`'s `cmp`. The claim is that it orders texts by their code points, as a
/// dictionary does.
#[verifier::external_body]
pub(crate) fn compare_texts(a: &String, b: &String) -> (order: Ordering)
    ensures
        order == text_order(a@, b@),
{
    a.cmp(b)
}

/// Of two texts exactly one holds: they are equal, the first stands before the second, or the
/// second before the first.
pub proof fn law_texts_are_totally_ordered(a: Seq<char>, b: Seq<char>)
    ensures
        a == b || text_precedes(a, b) || text_precedes(b, a),
        a == b ==> !text_precedes(a, b),
        text_precedes(a, b) ==> !text_precedes(b, a),
{
    let i = lemma_first_difference(a, b);
    if i < a.len() && i < b.len() {
        assert(differs_below(a, b, i) || differs_below(b, a, i));
    }
    assert(first_difference(b, a, i));
    if a != b {
        if i == a.len() && i == b.len() {
            assert(a =~= b);
        }
    }
    assert forall|k: int| #[trigger]
        first_difference(a, b, k) && differs_below(a, b, k) implies k == i by {}
    assert forall|k: int| #[trigger]
        first_difference(b, a, k) && differs_below(b, a, k) implies k == i by {}
}

/// A text that stands before a second one stands before all that the second one stands before.
pub proof fn law_text_order_is_transitive(a: Seq<char>, b: Seq<char>, c: Seq<char>)
    requires
        text_precedes(a, b),
        text_precedes(b, c),
    ensures
        text_precedes(a, c),
{
    let i = choose|i: int| #[trigger] first_difference(a, b, i) && differs_below(a, b, i);
    let j = choose|j: int| #[trigger] first_difference(b, c, j) && differs_below(b, c, j);
    let k = if i < j { i } else { j };
    assert(first_difference(a, c, k));
    assert(differs_below(a, c, k));
}

/// A place up to which two texts agree and at which they differ or one of them ends.
proof fn lemma_first_difference(a: Seq<char>, b: Seq<char>) -> (i: int)
    ensures
        first_difference(a, b, i),
        i == a.len() || i == b.len() || a[i] != b[i],
    decreases a.len(),
{
    if a.len() == 0 || b.len() == 0 || a[0] != b[0] {
        0
    } else {
        let i = lemma_first_difference(a.drop_first(), b.drop_first());
        assert forall|j: int| 0 <= j < i + 1 implies a[j] == b[j] by {
            if j > 0 {
                assert(a.drop_first()[j - 1] == b.drop_first()[j - 1]);
            }
        }
        i + 1
    }
}

/// The bytes to send for a text: its UTF-8 encoding.
pub fn send_string(data: &String) -> (bytes: Vec<u8>)
    ensures
        bytes@ == encode_utf8(data@),
{
    vstd::slice::slice_to_vec(data.as_str().as_bytes())
}

/// The text that `String::from_utf8_lossy` makes of bytes.
pub uninterp spec fn utf8_lossy(bytes: Seq<u8>) -> Seq<char>;

/// Calls `String::from_utf8_lossy` and takes the owned text. The claim is that the text depends
/// on the bytes alone, that bytes which are valid UTF-8 are decoded to the text that they encode,
/// and that in the text of any others U+FFFD stands for what is invalid. How many of them stand for
/// a run of invalid bytes is left unsaid.
#[verifier::external_body]
fn from_utf8_lossy(bytes: &Vec<u8>) -> (text: String)
    ensures
        text@ == utf8_lossy(bytes@),
        valid_utf8(bytes@) ==> text@ == decode_utf8(bytes@),
        !valid_utf8(bytes@) ==> text@.contains('\u{FFFD}'),
{
    String::from_utf8_lossy(bytes).into_owned()
}

/// The text of received bytes. Bytes that are not valid UTF-8 are replaced by U+FFFD, not refused.
pub fn recv_string(data: &Vec<u8>) -> (text: String)
    ensures
        text@ == utf8_lossy(data@),
        valid_utf8(data@) ==> text@ == decode_utf8(data@),
        !valid_utf8(data@) ==> text@.contains('\u{FFFD}'),
{
    from_utf8_lossy(data)
}

/// What is sent for a text and received again is the same text: its encoding is valid UTF-8, and
/// valid UTF-8 is received as the text that it encodes.
pub proof fn law_text_survives_the_round_trip(text: Seq<char>)
    ensures
        valid_utf8(encode_utf8(text)),
        decode_utf8(encode_utf8(text)) == text,
{
    encode_utf8_valid_utf8(text);
    encode_utf8_decode_utf8(text);
}

/// Two texts are ordered by the first place at which they differ: the smaller code point comes first,
/// and a text comes before all that it begins.
pub proof fn law_first_difference_decides(a: Seq<char>, b: Seq<char>, i: int)
    requires
        0 <= i <= a.len(),
        i < b.len(),
        forall|j: int| 0 <= j < i ==> a[j] == b[j],
        i == a.len() || a[i] < b[i],
    ensures
        text_order(a, b) == Ordering::Less,
        text_order(b, a) == Ordering::Greater,
        text_order(a, a) == Ordering::Equal,
{
    assert(first_difference(a, b, i));
    law_texts_are_totally_ordered(a, b);
    law_texts_are_totally_ordered(a, a);
}

/// What is sent for a text is its UTF-8 encoding, and what is received of it again is that text,
/// whatever it is. All received bytes are read as the standard library reads them, and those that are
/// not valid UTF-8 with a replacement character.
pub proof fn law_received_text_is_the_sent_text(
    text: String,
    bytes: Vec<u8>,
    received: Vec<u8>,
    back: String,
)
    requires
        call_ensures(send_string, (&text,), bytes),
        call_ensures(recv_string, (&received,), back),
    ensures
        bytes@ == encode_utf8(text@),
        received@ == bytes@ ==> back@ == text@,
        back@ == utf8_lossy(received@),
        !valid_utf8(received@) ==> back@.contains('\u{FFFD}'),
{
    law_text_survives_the_round_trip(text@);
}

} // verus!
