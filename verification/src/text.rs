//! Comparing text the way Rust's `str` does: byte by byte over the UTF-8
//! encoding, which orders strings by their characters' code points.

use vstd::prelude::*;
use vstd::utf8::*;

verus! {

/// The texts of a list of strings.
pub open spec fn texts_of(v: Seq<String>) -> Seq<Seq<char>> {
    v.map_values(|s: String| s@)
}

/// The UTF-8 encoding of a text.
pub open spec fn utf8_of(s: Seq<char>) -> Seq<u8> {
    encode_utf8(s)
}

/// `a` and `b` hold the same bytes below position `k`.
pub open spec fn agree_below(a: Seq<u8>, b: Seq<u8>, k: int) -> bool {
    forall|i: int| 0 <= i < k ==> #[trigger] a[i] == b[i]
}

/// `k` is where `a` first falls below `b` in lexicographic order.
pub open spec fn less_at(a: Seq<u8>, b: Seq<u8>, k: int) -> bool {
    &&& 0 <= k <= a.len()
    &&& k < b.len()
    &&& agree_below(a, b, k)
    &&& (k == a.len() || a[k] < b[k])
}

/// Lexicographic order on byte strings: `a` is a proper prefix of `b`, or
/// the first byte where they differ is smaller in `a`.
pub open spec fn bytes_less(a: Seq<u8>, b: Seq<u8>) -> bool {
    exists|k: int| less_at(a, b, k)
}

/// The order of `str`: lexicographic over the UTF-8 bytes.
pub open spec fn text_less(a: Seq<char>, b: Seq<char>) -> bool {
    bytes_less(utf8_of(a), utf8_of(b))
}

/// The three outcomes of comparing two texts.
#[derive(Clone, Copy, Debug, PartialEq, Eq, Structural)]
pub enum TextOrder {
    Less,
    Equal,
    Greater,
}

/// No byte string is below itself.
pub proof fn lemma_bytes_less_irreflexive(a: Seq<u8>)
    ensures
        !bytes_less(a, a),
{
    if bytes_less(a, a) {
        let k = choose|k: int| less_at(a, a, k);
    }
}

/// Lexicographic order on byte strings is transitive.
pub proof fn lemma_bytes_less_transitive(a: Seq<u8>, b: Seq<u8>, c: Seq<u8>)
    requires
        bytes_less(a, b),
        bytes_less(b, c),
    ensures
        bytes_less(a, c),
{
    let k1 = choose|k: int| less_at(a, b, k);
    let k2 = choose|k: int| less_at(b, c, k);
    if k1 < k2 {
        assert(less_at(a, c, k1));
    } else if k2 < k1 {
        assert(less_at(a, c, k2));
    } else {
        assert(less_at(a, c, k1));
    }
}

/// Lexicographic order on byte strings is asymmetric.
pub proof fn lemma_bytes_less_asymmetric(a: Seq<u8>, b: Seq<u8>)
    requires
        bytes_less(a, b),
    ensures
        !bytes_less(b, a),
{
    if bytes_less(b, a) {
        lemma_bytes_less_transitive(a, b, a);
        lemma_bytes_less_irreflexive(a);
    }
}

/// Texts with the same encoding are the same text.
pub proof fn lemma_utf8_injective(a: Seq<char>, b: Seq<char>)
    requires
        utf8_of(a) == utf8_of(b),
    ensures
        a == b,
{
    encode_utf8_decode_utf8(a);
    encode_utf8_decode_utf8(b);
}

/// No text is below itself.
pub proof fn lemma_text_less_irreflexive(a: Seq<char>)
    ensures
        !text_less(a, a),
{
    lemma_bytes_less_irreflexive(utf8_of(a));
}

/// The order of texts is transitive.
pub proof fn lemma_text_less_transitive(a: Seq<char>, b: Seq<char>, c: Seq<char>)
    requires
        text_less(a, b),
        text_less(b, c),
    ensures
        text_less(a, c),
{
    lemma_bytes_less_transitive(utf8_of(a), utf8_of(b), utf8_of(c));
}

/// The order of texts is asymmetric.
pub proof fn lemma_text_less_asymmetric(a: Seq<char>, b: Seq<char>)
    requires
        text_less(a, b),
    ensures
        !text_less(b, a),
{
    lemma_bytes_less_asymmetric(utf8_of(a), utf8_of(b));
}

/// Compares two byte strings lexicographically.
pub fn compare_bytes(a: &[u8], b: &[u8]) -> (order: TextOrder)
    ensures
        order == TextOrder::Less <==> bytes_less(a@, b@),
        order == TextOrder::Equal <==> a@ == b@,
        order == TextOrder::Greater <==> bytes_less(b@, a@),
{
    let mut i: usize = 0;
    while i < a.len() && i < b.len()
        invariant
            i <= a.len(),
            i <= b.len(),
            agree_below(a@, b@, i as int),
        decreases a.len() - i,
    {
        if a[i] < b[i] {
            proof {
                assert(less_at(a@, b@, i as int));
                lemma_bytes_less_asymmetric(a@, b@);
            }
            return TextOrder::Less;
        }
        if b[i] < a[i] {
            proof {
                assert(agree_below(b@, a@, i as int));
                assert(less_at(b@, a@, i as int));
                lemma_bytes_less_asymmetric(b@, a@);
            }
            return TextOrder::Greater;
        }
        i = i + 1;
    }
    if a.len() < b.len() {
        proof {
            assert(less_at(a@, b@, i as int));
            lemma_bytes_less_asymmetric(a@, b@);
        }
        TextOrder::Less
    } else if b.len() < a.len() {
        proof {
            assert(agree_below(b@, a@, i as int));
            assert(less_at(b@, a@, i as int));
            lemma_bytes_less_asymmetric(b@, a@);
        }
        TextOrder::Greater
    } else {
        proof {
            assert(a@ =~= b@);
            lemma_bytes_less_irreflexive(a@);
        }
        TextOrder::Equal
    }
}

/// Compares two texts in the order of `str`.
pub fn compare_text(a: &str, b: &str) -> (order: TextOrder)
    ensures
        order == TextOrder::Less <==> text_less(a@, b@),
        order == TextOrder::Equal <==> a@ == b@,
        order == TextOrder::Greater <==> text_less(b@, a@),
{
    let order = compare_bytes(a.as_bytes(), b.as_bytes());
    proof {
        if utf8_of(a@) == utf8_of(b@) {
            lemma_utf8_injective(a@, b@);
        }
    }
    order
}

/// Whether two texts are the same.
pub fn same_text(a: &str, b: &str) -> (same: bool)
    ensures
        same == (a@ == b@),
{
    match compare_text(a, b) {
        TextOrder::Equal => true,
        _ => false,
    }
}

/// Calls `String::push`, which appends one character.
#[verifier::external_body]
pub(crate) fn push_char(s: &mut String, c: char)
    ensures
        final(s)@ == old(s)@.push(c),
{
    s.push(c)
}

/// Whether `s` begins with `prefix`.
pub fn has_prefix(s: &str, prefix: &str) -> (b: bool)
    ensures
        b == (prefix@.len() <= s@.len() && s@.take(prefix@.len() as int) == prefix@),
{
    let n = prefix.unicode_len();
    if n > s.unicode_len() {
        return false;
    }
    let head = s.substring_char(0, n);
    assert(s@.subrange(0, n as int) == s@.take(n as int));
    same_text(head, prefix)
}

} // verus!
