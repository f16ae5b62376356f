//! Prefixes and suffixes of strings, and the joining of paths.
//!
//! Contracts speak of a string as its sequence of characters. The code works
//! on the UTF-8 bytes underneath, so the lemmas of this module relate the two:
//! a character prefix is a byte prefix and the other way round, and likewise
//! for suffixes.

use vstd::prelude::*;
use vstd::string::StringExecFns;
use vstd::utf8::*;

verus! {

/// The characters of `s` from position `n` on.
pub open spec fn tail_from(s: Seq<char>, n: nat) -> Seq<char> {
    s.subrange(n as int, s.len() as int)
}

/// Encoding distributes over concatenation.
pub proof fn lemma_encode_concat(a: Seq<char>, b: Seq<char>)
    ensures
        encode_utf8(a + b) == encode_utf8(a) + encode_utf8(b),
    decreases a.len(),
{
    if a.len() > 0 {
        lemma_encode_concat(a.drop_first(), b);
        assert((a + b).drop_first() =~= a.drop_first() + b);
    }
}

/// Every character takes at least one byte.
pub proof fn lemma_encode_len(a: Seq<char>)
    ensures
        encode_utf8(a).len() >= a.len(),
    decreases a.len(),
{
    if a.len() > 0 {
        lemma_encode_len(a.drop_first());
    }
}

/// Two strings with the same bytes are the same string.
pub proof fn lemma_encode_injective(a: Seq<char>, b: Seq<char>)
    requires
        encode_utf8(a) == encode_utf8(b),
    ensures
        a == b,
{
    encode_utf8_decode_utf8(a);
    encode_utf8_decode_utf8(b);
}

/// A character prefix is a byte prefix, and what follows it encodes to what
/// follows its bytes.
pub proof fn lemma_prefix_to_bytes(d: Seq<char>, p: Seq<char>)
    requires
        d.is_prefix_of(p),
    ensures
        encode_utf8(d).is_prefix_of(encode_utf8(p)),
        encode_utf8(p) == encode_utf8(d) + encode_utf8(tail_from(p, d.len())),
{
    let rest = tail_from(p, d.len());
    assert(p =~= d + rest);
    lemma_encode_concat(d, rest);
}

/// A byte prefix between two encoded strings is a character prefix: no
/// encoded character is the beginning of another.
pub proof fn lemma_prefix_from_bytes(d: Seq<char>, p: Seq<char>)
    requires
        encode_utf8(d).is_prefix_of(encode_utf8(p)),
    ensures
        d.is_prefix_of(p),
    decreases d.len(),
{
    if d.len() > 0 {
        let bd = encode_utf8(d);
        let bp = encode_utf8(p);
        encode_utf8_first_scalar(d);
        encode_utf8_first_scalar(p);
        // Both begin with the same byte, so their first characters are
        // equally long, hold the same bytes, and are the same character.
        let k = length_of_first_scalar(bd);
        assert(decode_first_scalar(bd) == decode_first_scalar(bp));
        char_u32_cast(d[0], decode_first_scalar(bd));
        char_u32_cast(p[0], decode_first_scalar(bp));
        assert(d[0] == p[0]);
        // What follows the first character is a byte prefix again.
        assert(encode_utf8(d.drop_first()) =~= bd.subrange(k, bd.len() as int));
        assert(encode_utf8(p.drop_first()) =~= bp.subrange(k, bp.len() as int));
        lemma_prefix_from_bytes(d.drop_first(), p.drop_first());
        assert(p.subrange(0, d.len() as int) =~= d) by {
            assert(p.drop_first().subrange(0, d.len() - 1) == d.drop_first());
            assert forall|i: int| 0 <= i < d.len() implies p[i] == d[i] by {
                if i > 0 {
                    assert(p.drop_first()[i - 1] == p[i]);
                    assert(d.drop_first()[i - 1] == d[i]);
                    assert(p.drop_first().subrange(0, d.len() - 1)[i - 1] == p.drop_first()[i
                        - 1]);
                }
            }
        }
    }
}

/// The end of an encoded prefix is a character boundary of the whole.
pub proof fn lemma_prefix_boundary(a: Seq<char>, b: Seq<char>)
    ensures
        is_char_boundary(encode_utf8(a + b), encode_utf8(a).len() as int),
    decreases a.len(),
{
    let whole = encode_utf8(a + b);
    encode_utf8_valid_utf8(a + b);
    if a.len() > 0 {
        lemma_encode_concat(a, b);
        encode_utf8_first_scalar(a + b);
        assert((a + b).drop_first() =~= a.drop_first() + b);
        assert(pop_first_scalar(whole) =~= encode_utf8(a.drop_first() + b));
        lemma_prefix_boundary(a.drop_first(), b);
    }
}

/// Among the prefixes of one string, more characters means more bytes.
pub proof fn lemma_prefix_len_order(d1: Seq<char>, d2: Seq<char>, p: Seq<char>)
    requires
        d1.is_prefix_of(p),
        d2.is_prefix_of(p),
    ensures
        d1.len() < d2.len() <==> encode_utf8(d1).len() < encode_utf8(d2).len(),
        d1.len() == d2.len() <==> encode_utf8(d1).len() == encode_utf8(d2).len(),
{
    if d1.len() <= d2.len() {
        let m = d2.subrange(d1.len() as int, d2.len() as int);
        assert(d2 =~= d1 + m);
        lemma_encode_concat(d1, m);
        lemma_encode_len(m);
    } else {
        let m = d1.subrange(d2.len() as int, d1.len() as int);
        assert(d1 =~= d2 + m);
        lemma_encode_concat(d2, m);
        lemma_encode_len(m);
    }
}

/// A character suffix is a byte suffix.
pub proof fn lemma_suffix_to_bytes(x: Seq<char>, s: Seq<char>)
    requires
        x.is_suffix_of(s),
    ensures
        encode_utf8(x).is_suffix_of(encode_utf8(s)),
{
    let head = s.subrange(0, s.len() - x.len());
    assert(s =~= head + x);
    lemma_encode_concat(head, x);
}

/// A byte suffix between two encoded strings is a character suffix: an
/// encoded string begins with the first byte of a character, and such a byte
/// stands only where a character begins.
pub proof fn lemma_suffix_from_bytes(x: Seq<char>, s: Seq<char>)
    requires
        encode_utf8(x).is_suffix_of(encode_utf8(s)),
    ensures
        x.is_suffix_of(s),
{
    let bx = encode_utf8(x);
    let bs = encode_utf8(s);
    let at = bs.len() - bx.len();
    lemma_encode_len(x);
    encode_utf8_valid_utf8(x);
    encode_utf8_valid_utf8(s);
    encode_utf8_decode_utf8(x);
    encode_utf8_decode_utf8(s);
    if bx.len() > 0 {
        // The suffix begins with the first byte of a character, so it begins
        // at a character boundary of the whole, where decoding can be split.
        assert(bs[at] == bx[0]);
        is_char_boundary_iff_not_is_continuation_byte(bs, at);
        decode_utf8_split(bs, at);
        assert(s =~= decode_utf8(bs.subrange(0, at)) + x);
    }
}

/// Whether `s` begins with `prefix`.
pub fn starts_with(s: &str, prefix: &str) -> (b: bool)
    ensures
        b == prefix@.is_prefix_of(s@),
{
    let sb = s.as_bytes();
    let pb = prefix.as_bytes();
    if pb.len() > sb.len() {
        proof {
            if prefix@.is_prefix_of(s@) {
                lemma_prefix_to_bytes(prefix@, s@);
            }
        }
        return false;
    }
    let mut i: usize = 0;
    while i < pb.len()
        invariant
            i <= pb.len() <= sb.len(),
            sb@ == encode_utf8(s@),
            pb@ == encode_utf8(prefix@),
            forall|j: int| 0 <= j < i ==> sb@[j] == pb@[j],
        decreases pb.len() - i,
    {
        if sb[i] != pb[i] {
            proof {
                if prefix@.is_prefix_of(s@) {
                    lemma_prefix_to_bytes(prefix@, s@);
                }
            }
            return false;
        }
        i += 1;
    }
    proof {
        lemma_prefix_from_bytes(prefix@, s@);
    }
    true
}

/// Whether `a` and `b` are the same text.
pub fn same_text(a: &str, b: &str) -> (same: bool)
    ensures
        same == (a@ == b@),
{
    let equally_long = a.as_bytes().len() == b.as_bytes().len();
    let begins = starts_with(a, b);
    proof {
        if begins {
            // Both are prefixes of `a`, so equally many bytes are equally
            // many characters.
            assert(a@.is_prefix_of(a@)) by {
                assert(a@.subrange(0, a@.len() as int) =~= a@);
            }
            lemma_prefix_len_order(b@, a@, a@);
            if equally_long {
                assert(a@ =~= b@);
            }
        }
        if a@ == b@ {
            assert(b@.is_prefix_of(a@)) by {
                assert(a@.subrange(0, b@.len() as int) =~= b@);
            }
        }
    }
    begins && equally_long
}

/// What is left of `s` after `prefix`; none where `s` does not begin with
/// `prefix`.
pub fn strip_prefix<'a>(s: &'a str, prefix: &str) -> (rest: Option<&'a str>)
    ensures
        match rest {
            Some(r) => prefix@.is_prefix_of(s@) && r@ == tail_from(s@, prefix@.len()),
            None => !prefix@.is_prefix_of(s@),
        },
{
    if starts_with(s, prefix) {
        Some(after_prefix(s, prefix))
    } else {
        None
    }
}

/// What is left of `s` after its prefix `prefix`.
pub(crate) fn after_prefix<'a>(s: &'a str, prefix: &str) -> (rest: &'a str)
    requires
        prefix@.is_prefix_of(s@),
    ensures
        rest@ == tail_from(s@, prefix@.len()),
{
    proof {
        let tail = tail_from(s@, prefix@.len());
        assert(s@ =~= prefix@ + tail);
        lemma_prefix_boundary(prefix@, tail);
        lemma_prefix_to_bytes(prefix@, s@);
    }
    let mid = prefix.as_bytes().len();
    let (_, rest) = s.split_at(mid);
    proof {
        let tail = tail_from(s@, prefix@.len());
        let whole = encode_utf8(s@);
        let head = encode_utf8(prefix@);
        assert(whole.subrange(head.len() as int, whole.len() as int) =~= encode_utf8(tail));
        lemma_encode_injective(rest@, tail);
    }
    rest
}

/// Whether `s` ends with `suffix`.
pub fn ends_with(s: &str, suffix: &str) -> (b: bool)
    ensures
        b == suffix@.is_suffix_of(s@),
{
    let sb = s.as_bytes();
    let xb = suffix.as_bytes();
    if xb.len() > sb.len() {
        proof {
            if suffix@.is_suffix_of(s@) {
                lemma_suffix_to_bytes(suffix@, s@);
            }
        }
        return false;
    }
    let offset = sb.len() - xb.len();
    let mut i: usize = 0;
    while i < xb.len()
        invariant
            i <= xb.len() <= sb.len(),
            offset == sb.len() - xb.len(),
            sb@ == encode_utf8(s@),
            xb@ == encode_utf8(suffix@),
            forall|j: int| 0 <= j < i ==> sb@[offset + j] == xb@[j],
        decreases xb.len() - i,
    {
        if sb[offset + i] != xb[i] {
            proof {
                if suffix@.is_suffix_of(s@) {
                    lemma_suffix_to_bytes(suffix@, s@);
                }
            }
            return false;
        }
        i += 1;
    }
    proof {
        lemma_suffix_from_bytes(suffix@, s@);
    }
    true
}

/// Whether the last character of `s` is a slash.
pub fn ends_with_slash(s: &str) -> (b: bool)
    ensures
        b == (s@.len() > 0 && s@.last() == '/'),
{
    proof {
        reveal_strlit("/");
        if s@.len() > 0 {
            assert(s@.subrange(s@.len() - 1, s@.len() as int) =~= seq![s@.last()]);
            assert(seq![s@.last()][0] == s@.last());
        }
    }
    ends_with(s, "/")
}

/// `a` followed by `b`.
pub fn catenate(a: &str, b: &str) -> (r: String)
    ensures
        r@ == a@ + b@,
{
    a.to_owned().concat(b)
}

/// `path` taken below the directory `base`: an absolute `path` stands for
/// itself; a relative one follows `base`, after a slash where `base` is not
/// empty and does not end with one.
pub open spec fn join_spec(base: Seq<char>, path: Seq<char>) -> Seq<char> {
    if path.len() > 0 && path[0] == '/' {
        path
    } else if base.len() > 0 && base.last() != '/' {
        base.push('/') + path
    } else {
        base + path
    }
}

/// `path` taken below the directory `base`.
pub fn join_path(base: &str, path: &str) -> (joined: String)
    ensures
        joined@ == join_spec(base@, path@),
{
    proof {
        reveal_strlit("/");
        assert(seq!['/'].is_prefix_of(path@) <==> path@.len() > 0 && path@[0] == '/') by {
            if path@.len() > 0 && path@[0] == '/' {
                assert(path@.subrange(0, 1) =~= seq!['/']);
            }
            if seq!['/'].is_prefix_of(path@) {
                assert(path@.subrange(0, 1)[0] == '/');
            }
        }
    }
    if starts_with(path, "/") {
        path.to_owned()
    } else if !base.is_empty() && !ends_with_slash(base) {
        catenate(catenate(base, "/").as_str(), path)
    } else {
        catenate(base, path)
    }
}

} // verus!
