//! Prefix and suffix tests on string slices.
//!
//! The executable functions compare UTF-8 bytes; their contracts speak of the
//! character sequences the slices stand for. The lemmas in between show that
//! the two agree.

use vstd::prelude::*;
use vstd::string::StringSliceAdditionalSpecFns;
use vstd::utf8::*;

verus! {

/// Encoding distributes over concatenation.
pub proof fn lemma_encode_concat(a: Seq<char>, b: Seq<char>)
    ensures
        encode_utf8(a + b) == encode_utf8(a) + encode_utf8(b),
    decreases a.len(),
{
    if a.len() == 0 {
        assert(a + b =~= b);
        assert(encode_utf8(a) + encode_utf8(b) =~= encode_utf8(b));
    } else {
        assert((a + b).drop_first() =~= a.drop_first() + b);
        lemma_encode_concat(a.drop_first(), b);
        assert(encode_utf8(a + b) =~= encode_utf8(a) + encode_utf8(b));
    }
}

/// Two character sequences with the same encoding are the same sequence.
pub proof fn lemma_encode_injective(a: Seq<char>, b: Seq<char>)
    requires
        encode_utf8(a) == encode_utf8(b),
    ensures
        a == b,
{
    encode_utf8_decode_utf8(a);
    encode_utf8_decode_utf8(b);
}

/// A byte sequence that extends a well-formed first scalar starts with the same scalar.
proof fn lemma_first_scalar_of_extension(p: Seq<u8>, s: Seq<u8>)
    requires
        valid_first_scalar(p),
        p.is_prefix_of(s),
    ensures
        decode_first_scalar(s) == decode_first_scalar(p),
        length_of_first_scalar(s) == length_of_first_scalar(p),
        length_of_first_scalar(p) <= p.len(),
{
    let front = s.subrange(0, p.len() as int);
    assert(p[0] == front[0]);
    if p.len() >= 2 {
        assert(p[1] == front[1]);
    }
    if p.len() >= 3 {
        assert(p[2] == front[2]);
    }
    if p.len() >= 4 {
        assert(p[3] == front[3]);
    }
}

/// What is left of an encoding after its first scalar is the encoding of the rest.
proof fn lemma_pop_first_scalar_of_encoding(chars: Seq<char>)
    requires
        chars.len() > 0,
    ensures
        pop_first_scalar(encode_utf8(chars)) == encode_utf8(chars.drop_first()),
        0 < length_of_first_scalar(encode_utf8(chars)) <= encode_utf8(chars).len(),
{
    encode_utf8_first_scalar(chars);
    assert(pop_first_scalar(encode_utf8(chars)) =~= encode_utf8(chars.drop_first()));
}

/// If the bytes of `p` begin the bytes of `s`, the characters of `p` begin the characters of `s`.
proof fn lemma_byte_prefix_is_char_prefix(p: Seq<char>, s: Seq<char>)
    requires
        encode_utf8(p).is_prefix_of(encode_utf8(s)),
    ensures
        p.is_prefix_of(s),
    decreases p.len(),
{
    if p.len() == 0 {
        assert(p =~= s.subrange(0, 0));
    } else {
        let pb = encode_utf8(p);
        let sb = encode_utf8(s);
        encode_utf8_first_scalar(p);
        lemma_pop_first_scalar_of_encoding(p);
        assert(s.len() > 0);
        encode_utf8_first_scalar(s);
        lemma_pop_first_scalar_of_encoding(s);
        lemma_first_scalar_of_extension(pb, sb);
        char_u32_cast(p[0], p[0] as u32);
        char_u32_cast(s[0], s[0] as u32);
        assert(p[0] == s[0]);
        let n = length_of_first_scalar(pb);
        let p_rest = pop_first_scalar(pb);
        let s_rest = pop_first_scalar(sb);
        assert(p_rest =~= s_rest.subrange(0, p_rest.len() as int)) by {
            assert forall|i: int| 0 <= i < p_rest.len() implies p_rest[i] == s_rest[i] by {
                assert(pb[i + n] == sb.subrange(0, pb.len() as int)[i + n]);
            }
        }
        lemma_byte_prefix_is_char_prefix(p.drop_first(), s.drop_first());
        let tail = s.drop_first().subrange(0, p.len() - 1);
        assert forall|i: int| 0 <= i < p.len() implies p[i] == s[i] by {
            if i > 0 {
                assert(p.drop_first()[i - 1] == tail[i - 1]);
            }
        }
        assert(p =~= s.subrange(0, p.len() as int));
    }
}

/// A prefix test on characters is a prefix test on UTF-8 bytes.
pub proof fn lemma_prefix_iff_byte_prefix(p: Seq<char>, s: Seq<char>)
    ensures
        p.is_prefix_of(s) <==> encode_utf8(p).is_prefix_of(encode_utf8(s)),
{
    if p.is_prefix_of(s) {
        let rest = s.skip(p.len() as int);
        assert(s =~= p + rest);
        lemma_encode_concat(p, rest);
        assert(encode_utf8(p) =~= encode_utf8(s).subrange(0, encode_utf8(p).len() as int));
    }
    if encode_utf8(p).is_prefix_of(encode_utf8(s)) {
        lemma_byte_prefix_is_char_prefix(p, s);
    }
}

/// Where the bytes of `s` end with the bytes of `p`, the place where they start is a
/// character boundary of `s`.
proof fn lemma_byte_suffix_starts_at_boundary(p: Seq<char>, s: Seq<char>)
    requires
        encode_utf8(p).is_suffix_of(encode_utf8(s)),
    ensures
        is_char_boundary(encode_utf8(s), encode_utf8(s).len() - encode_utf8(p).len()),
{
    let pb = encode_utf8(p);
    let sb = encode_utf8(s);
    let k = sb.len() - pb.len();
    encode_utf8_valid_utf8(s);
    if p.len() == 0 {
        is_char_boundary_start_end_of_seq(sb);
    } else {
        encode_utf8_first_scalar(p);
        assert(pb[0] == sb.subrange(k, sb.len() as int)[0]);
        is_char_boundary_iff_is_leading_byte(sb, k);
    }
}

/// The place where the encodings of two sequences meet is a character boundary of their
/// concatenation.
proof fn lemma_boundary_between_parts(a: Seq<char>, b: Seq<char>)
    ensures
        is_char_boundary(encode_utf8(a + b), encode_utf8(a).len() as int),
{
    lemma_encode_concat(a, b);
    assert(encode_utf8(b) =~= encode_utf8(a + b).subrange(
        encode_utf8(a + b).len() - encode_utf8(b).len(),
        encode_utf8(a + b).len() as int,
    ));
    lemma_byte_suffix_starts_at_boundary(b, a + b);
}

/// A suffix test on characters is a suffix test on UTF-8 bytes.
pub proof fn lemma_suffix_iff_byte_suffix(p: Seq<char>, s: Seq<char>)
    ensures
        p.is_suffix_of(s) <==> encode_utf8(p).is_suffix_of(encode_utf8(s)),
{
    let pb = encode_utf8(p);
    let sb = encode_utf8(s);
    if p.is_suffix_of(s) {
        let front = s.take(s.len() - p.len());
        assert(s =~= front + p);
        lemma_encode_concat(front, p);
        assert(pb =~= sb.subrange(sb.len() - pb.len(), sb.len() as int));
    }
    if pb.is_suffix_of(sb) {
        let k = sb.len() - pb.len();
        lemma_byte_suffix_starts_at_boundary(p, s);
        encode_utf8_valid_utf8(s);
        decode_utf8_split(sb, k);
        encode_utf8_decode_utf8(s);
        encode_utf8_decode_utf8(p);
        let front = decode_utf8(sb.subrange(0, k));
        assert(sb.subrange(k, sb.len() as int) =~= pb);
        assert(s =~= front + p);
        assert(p =~= s.subrange(s.len() - p.len(), s.len() as int));
    }
}

/// Whether `text` begins with `prefix`.
pub fn starts_with(text: &str, prefix: &str) -> (found: bool)
    ensures
        found == prefix@.is_prefix_of(text@),
{
    let whole = text.as_bytes();
    let part = prefix.as_bytes();
    proof {
        lemma_prefix_iff_byte_prefix(prefix@, text@);
    }
    if part.len() > whole.len() {
        return false;
    }
    let mut i: usize = 0;
    while i < part.len()
        invariant
            i <= part@.len() <= whole@.len(),
            part@.subrange(0, i as int) =~= whole@.subrange(0, i as int),
            prefix@.is_prefix_of(text@) <==> part@.is_prefix_of(whole@),
        decreases part.len() - i,
    {
        if whole[i] != part[i] {
            proof {
                let front = whole@.subrange(0, part@.len() as int);
                assert(front[i as int] != part@[i as int]);
            }
            return false;
        }
        i += 1;
        assert(part@.subrange(0, i as int) =~= whole@.subrange(0, i as int)) by {
            let a = part@.subrange(0, i as int);
            let b = whole@.subrange(0, i as int);
            assert forall|j: int| 0 <= j < i implies a[j] == b[j] by {
                if j < i - 1 {
                    assert(part@.subrange(0, i - 1)[j] == whole@.subrange(0, i - 1)[j]);
                }
            }
        }
    }
    assert(part@ =~= part@.subrange(0, i as int));
    true
}

/// Whether `text` ends with `suffix`.
pub fn ends_with(text: &str, suffix: &str) -> (found: bool)
    ensures
        found == suffix@.is_suffix_of(text@),
{
    let whole = text.as_bytes();
    let part = suffix.as_bytes();
    proof {
        lemma_suffix_iff_byte_suffix(suffix@, text@);
    }
    if part.len() > whole.len() {
        return false;
    }
    let start: usize = whole.len() - part.len();
    let mut i: usize = 0;
    while i < part.len()
        invariant
            i <= part@.len() <= whole@.len() <= usize::MAX,
            start == whole@.len() - part@.len(),
            suffix@.is_suffix_of(text@) <==> part@.is_suffix_of(whole@),
            part@.subrange(0, i as int) =~= whole@.subrange(start as int, start + i),
        decreases part.len() - i,
    {
        if whole[start + i] != part[i] {
            proof {
                let back = whole@.subrange(start as int, whole@.len() as int);
                assert(back[i as int] != part@[i as int]);
            }
            return false;
        }
        i += 1;
        assert(part@.subrange(0, i as int) =~= whole@.subrange(start as int, start + i)) by {
            let a = part@.subrange(0, i as int);
            let b = whole@.subrange(start as int, start + i);
            assert forall|j: int| 0 <= j < i implies a[j] == b[j] by {
                if j < i - 1 {
                    assert(part@.subrange(0, i - 1)[j] == whole@.subrange(
                        start as int,
                        start + i - 1,
                    )[j]);
                }
            }
        }
    }
    assert(part@ =~= part@.subrange(0, i as int));
    true
}

/// What is left of `text` once `prefix` is taken from its front; nothing where `text`
/// does not begin with `prefix`.
pub open spec fn stripped(text: Seq<char>, prefix: Seq<char>) -> Option<Seq<char>> {
    if prefix.is_prefix_of(text) {
        Some(text.skip(prefix.len() as int))
    } else {
        None
    }
}

/// What is left of `text` once `prefix` is taken from its front, where `text` begins with it.
pub fn strip_prefix<'a>(text: &'a str, prefix: &str) -> (rest: Option<&'a str>)
    ensures
        match rest {
            Some(r) => stripped(text@, prefix@) == Some(r@),
            None => stripped(text@, prefix@) is None,
        },
{
    if !starts_with(text, prefix) {
        return None;
    }
    let cut: usize = prefix.as_bytes().len();
    proof {
        let tail = text@.skip(prefix@.len() as int);
        assert(text@ =~= prefix@ + tail);
        lemma_encode_concat(prefix@, tail);
        lemma_boundary_between_parts(prefix@, tail);
    }
    let (_, rest) = text.split_at(cut);
    proof {
        let tail = text@.skip(prefix@.len() as int);
        assert(rest.spec_bytes() =~= encode_utf8(tail));
        lemma_encode_injective(rest@, tail);
    }
    Some(rest)
}

} // verus!
