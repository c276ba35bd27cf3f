//! The digest evaluator: SHA-1 of an object wrapper as forty hexadecimal
//! characters, and the prefix test on such a digest.
//!
//! SHA-1 itself is the `crypto` crate's. What this library assumes of it is
//! stated here, on the type `Sha1` and the four functions of it that the
//! worker calls; nothing of it is proved.

use crypto::digest::Digest;
use crypto::sha1::Sha1;
use vstd::prelude::*;
use vstd::string::StringSliceAdditionalSpecFns;
use vstd::utf8::{char_u32_cast, encode_scalar, encode_utf8, encode_utf8_first_scalar};

verus! {

/// `crypto::sha1::Sha1`, the state of one SHA-1 computation, carried as an
/// opaque value.
#[verifier::external_type_specification]
#[verifier::external_body]
pub struct ExSha1(Sha1);

/// The SHA-1 digest of `message` as text: what `Digest::result_str` returns
/// once a context has been fed exactly `message`.
pub uninterp spec fn sha1_hex(message: Seq<u8>) -> Seq<char>;

/// The bytes that a context has been fed since it was made or last reset, in
/// the order in which they came.
pub uninterp spec fn sha1_absorbed(context: Sha1) -> Seq<u8>;

/// Whether a context has produced its result, after which it takes no more
/// input until it is reset.
pub uninterp spec fn sha1_finished(context: Sha1) -> bool;

/// A character of lowercase hexadecimal text.
pub open spec fn is_lower_hex(c: char) -> bool {
    ('0' <= c && c <= '9') || ('a' <= c && c <= 'f')
}

/// `Sha1::new` gives a context that has been fed nothing and has produced
/// no result.
pub assume_specification[ Sha1::new ]() -> (context: Sha1)
    ensures
        sha1_absorbed(context) == Seq::<u8>::empty(),
        !sha1_finished(context),
;

/// `Digest::reset` on a `Sha1` forgets all input and the result, whatever
/// the context held.
pub assume_specification[ <Sha1 as Digest>::reset ](context: &mut Sha1)
    ensures
        sha1_absorbed(*final(context)) == Seq::<u8>::empty(),
        !sha1_finished(*final(context)),
;

/// `Digest::input` on a `Sha1` adds `input` behind what was fed before. It
/// panics on a context that has produced its result, and when the count of
/// message bits leaves 64 bits: both are kept out.
pub assume_specification[ <Sha1 as Digest>::input ](context: &mut Sha1, input: &[u8])
    requires
        !sha1_finished(*old(context)),
        (sha1_absorbed(*old(context)).len() + input@.len()) * 8 <= u64::MAX,
    ensures
        sha1_absorbed(*final(context)) == sha1_absorbed(*old(context)) + input@,
        !sha1_finished(*final(context)),
;

/// `Digest::result_str` on a `Sha1`: the digest of all that the context was
/// fed, as forty characters of lowercase hexadecimal. The context is finished
/// by it and keeps its input.
#[verifier::external_body]
pub(crate) fn sha1_result_str(context: &mut Sha1) -> (hex: String)
    ensures
        hex@ == sha1_hex(sha1_absorbed(*old(context))),
        hex@.len() == 40,
        forall|i: int| 0 <= i < hex@.len() ==> is_lower_hex(#[trigger] hex@[i]),
        sha1_absorbed(*final(context)) == sha1_absorbed(*old(context)),
        sha1_finished(*final(context)),
{
    context.result_str()
}

/// Whether `hex` begins with `prefix`: the first `prefix.len()` bytes of
/// `hex` are there and equal `prefix`.
pub open spec fn spec_matches(hex: Seq<u8>, prefix: Seq<u8>) -> bool {
    prefix.len() <= hex.len() && hex.subrange(0, prefix.len() as int) =~= prefix
}

/// On texts the prefix test on bytes is the prefix test on characters:
/// the UTF-8 bytes of `hex` begin with those of `prefix` exactly when `hex`
/// begins with `prefix` character for character.
pub proof fn lemma_matches_by_characters(hex: Seq<char>, prefix: Seq<char>)
    ensures
        spec_matches(encode_utf8(hex), encode_utf8(prefix)) == prefix.is_prefix_of(hex),
    decreases prefix.len(),
{
    let hb = encode_utf8(hex);
    let pb = encode_utf8(prefix);
    if prefix.len() == 0 {
        assert(hb.subrange(0, 0) =~= pb);
        assert(prefix =~= hex.subrange(0, 0));
    } else if hex.len() == 0 {
        encode_utf8_first_scalar(prefix);
    } else {
        let pt = prefix.drop_first();
        let ht = hex.drop_first();
        let lead = encode_scalar(prefix[0] as u32);
        encode_utf8_first_scalar(prefix);
        encode_utf8_first_scalar(hex);
        lemma_matches_by_characters(ht, pt);
        if prefix[0] == hex[0] {
            let pe = encode_utf8(pt);
            let he = encode_utf8(ht);
            assert(pb == lead + pe);
            assert(hb == lead + he);
            if spec_matches(he, pe) {
                assert(hb.subrange(0, pb.len() as int) =~= lead + he.subrange(0, pe.len() as int));
            }
            if spec_matches(hb, pb) {
                assert(he.subrange(0, pe.len() as int) =~= hb.subrange(0, pb.len() as int).subrange(
                    lead.len() as int,
                    pb.len() as int,
                ));
                assert(pe =~= pb.subrange(lead.len() as int, pb.len() as int));
            }
            if pt.is_prefix_of(ht) {
                assert(prefix =~= hex.subrange(0, prefix.len() as int)) by {
                    assert forall|i: int| 0 <= i < prefix.len() implies prefix[i] == hex[i] by {
                        if i > 0 {
                            assert(pt[i - 1] == ht.subrange(0, pt.len() as int)[i - 1]);
                        }
                    }
                }
            }
            if prefix.is_prefix_of(hex) {
                assert(pt =~= ht.subrange(0, pt.len() as int)) by {
                    assert forall|i: int| 0 <= i < pt.len() implies pt[i] == ht[i] by {
                        assert(prefix[i + 1] == hex.subrange(0, prefix.len() as int)[i + 1]);
                    }
                }
            }
        } else {
            if prefix.is_prefix_of(hex) {
                assert(prefix[0] == hex.subrange(0, prefix.len() as int)[0]);
            }
            if spec_matches(hb, pb) {
                let cut = hb.subrange(0, pb.len() as int);
                assert(forall|i: int| 0 <= i < pb.len() ==> pb[i] == cut[i]);
                assert(pb[0] == hb[0]);
                assert(pb.len() > 1 ==> pb[1] == cut[1]);
                assert(pb.len() > 2 ==> pb[2] == cut[2]);
                assert(pb.len() > 3 ==> pb[3] == cut[3]);
                assert(prefix[0] as u32 == hex[0] as u32);
                char_u32_cast(prefix[0], prefix[0] as u32);
                char_u32_cast(hex[0], hex[0] as u32);
            }
        }
    }
}

/// Ordinal, case-sensitive prefix test: true exactly when `hex` begins with
/// `prefix`, byte for byte and so character for character. An empty prefix
/// begins every text; a prefix longer than the text begins none.
pub fn matches(hex: &str, prefix: &str) -> (hit: bool)
    ensures
        hit == spec_matches(hex.spec_bytes(), prefix.spec_bytes()),
        hit == prefix@.is_prefix_of(hex@),
        prefix.spec_bytes().len() == 0 ==> hit,
        prefix.spec_bytes().len() > hex.spec_bytes().len() ==> !hit,
{
    proof {
        lemma_matches_by_characters(hex@, prefix@);
    }
    let h = hex.as_bytes();
    let p = prefix.as_bytes();
    if p.len() > h.len() {
        return false;
    }
    let mut i: usize = 0;
    while i < p.len()
        invariant
            i <= p.len() <= h.len(),
            h@ == hex.spec_bytes(),
            p@ == prefix.spec_bytes(),
            spec_matches(h@, p@) == prefix@.is_prefix_of(hex@),
            h@.subrange(0, i as int) == p@.subrange(0, i as int),
        decreases p.len() - i,
    {
        if h[i] != p[i] {
            assert(h@.subrange(0, p.len() as int)[i as int] != p@[i as int]);
            return false;
        }
        assert(h@.subrange(0, i + 1) == h@.subrange(0, i as int).push(h@[i as int]));
        assert(p@.subrange(0, i + 1) == p@.subrange(0, i as int).push(p@[i as int]));
        i += 1;
    }
    assert(p@.subrange(0, p.len() as int) == p@);
    true
}

} // verus!
