//! The byte-exact shape of a candidate commit: the object content built from
//! the fixed commit data and a nonce, and the wrapper that is digested.

use crate::digest::{sha1_hex, spec_matches};
use crate::numeral::{
    decimal, hexadecimal, lemma_decimal_value, lemma_hexadecimal_len_8, lemma_hexadecimal_value,
    DASH,
};
use vstd::prelude::*;
use vstd::string::StringSliceAdditionalSpecFns;
use vstd::utf8::encode_utf8;

verus! {

/// What one search holds fixed, each text as its UTF-8 bytes.
pub struct SearchSpec {
    /// Hexadecimal identifier of the staged tree.
    pub tree_id: Seq<u8>,
    /// Hexadecimal identifier of the parent commit.
    pub parent_id: Seq<u8>,
    /// Display name and e-mail address of author and committer.
    pub author_line: Seq<u8>,
    /// The commit message.
    pub message: Seq<u8>,
    /// The rendered timestamp: epoch seconds and UTC offset.
    pub timestamp: Seq<u8>,
    /// The hexadecimal prefix that a winning digest begins with.
    pub target_prefix: Seq<u8>,
}

/// The trailer that tells candidates apart: the worker's index in decimal,
/// at least two digits, a dash, and the nonce as eight hexadecimal digits.
pub open spec fn spec_trailer(worker_id: u32, nonce: u32) -> Seq<u8> {
    decimal(worker_id as nat, 2) + seq![DASH] + hexadecimal(nonce as nat, 8)
}

/// The part of the object content that is the same for every candidate of a
/// search: tree, parent, author and committer lines, a blank line, and the
/// message with its line end.
pub open spec fn spec_preamble(spec: SearchSpec) -> Seq<u8> {
    "tree ".spec_bytes() + spec.tree_id + "\nparent ".spec_bytes() + spec.parent_id
        + "\nauthor ".spec_bytes() + spec.author_line + " ".spec_bytes() + spec.timestamp
        + "\ncommitter ".spec_bytes() + spec.author_line + " ".spec_bytes() + spec.timestamp
        + "\n\n".spec_bytes() + spec.message + "\n".spec_bytes()
}

/// The object content of the candidate that `worker_id` builds for `nonce`.
pub open spec fn spec_object_content(spec: SearchSpec, worker_id: u32, nonce: u32) -> Seq<u8> {
    spec_preamble(spec) + spec_trailer(worker_id, nonce)
}

/// The digest input for an object content: the word `commit`, a space, the
/// content's length in decimal, a zero byte, and the content.
pub open spec fn spec_object_wrapper(content: Seq<u8>) -> Seq<u8> {
    "commit ".spec_bytes() + decimal(content.len(), 1) + seq![0u8] + content
}

/// The digest of an object content as the bytes of its hexadecimal text.
pub open spec fn spec_digest(content: Seq<u8>) -> Seq<u8> {
    encode_utf8(sha1_hex(spec_object_wrapper(content)))
}

/// Whether the candidate of `worker_id` for `nonce` has a digest that begins
/// with the target prefix.
pub open spec fn wins(spec: SearchSpec, worker_id: u32, nonce: u32) -> bool {
    spec_matches(spec_digest(spec_object_content(spec, worker_id, nonce)), spec.target_prefix)
}

/// Whether `nonce` is the first nonce, counting up from zero, at which the
/// candidate of `worker_id` wins.
pub open spec fn first_win(spec: SearchSpec, worker_id: u32, nonce: u32) -> bool {
    wins(spec, worker_id, nonce) && forall|earlier: u32|
        earlier < nonce ==> !wins(spec, worker_id, earlier)
}

/// Whether the wrappers of `worker_id`'s candidates are short enough for the
/// digest's 64-bit count of message bits.
pub open spec fn fits(spec: SearchSpec, worker_id: u32) -> bool {
    spec_object_wrapper(spec_object_content(spec, worker_id, 0)).len() * 8 <= u64::MAX
}

/// Two trailers are equal only for the same worker and the same nonce.
pub proof fn lemma_trailer_injective(id_a: u32, nonce_a: u32, id_b: u32, nonce_b: u32)
    requires
        spec_trailer(id_a, nonce_a) == spec_trailer(id_b, nonce_b),
    ensures
        id_a == id_b,
        nonce_a == nonce_b,
{
    let dec_a = decimal(id_a as nat, 2);
    let dec_b = decimal(id_b as nat, 2);
    let hex_a = hexadecimal(nonce_a as nat, 8);
    let hex_b = hexadecimal(nonce_b as nat, 8);
    let t_a = spec_trailer(id_a, nonce_a);
    let t_b = spec_trailer(id_b, nonce_b);
    lemma_hexadecimal_len_8(nonce_a as nat);
    lemma_hexadecimal_len_8(nonce_b as nat);
    assert(t_a.len() == dec_a.len() + 9);
    assert(t_b.len() == dec_b.len() + 9);
    assert(dec_a =~= t_a.subrange(0, dec_a.len() as int));
    assert(dec_b =~= t_b.subrange(0, dec_b.len() as int));
    assert(hex_a =~= t_a.subrange(dec_a.len() as int + 1, t_a.len() as int));
    assert(hex_b =~= t_b.subrange(dec_b.len() as int + 1, t_b.len() as int));
    lemma_decimal_value(id_a as nat, 2);
    lemma_decimal_value(id_b as nat, 2);
    lemma_hexadecimal_value(nonce_a as nat, 8);
    lemma_hexadecimal_value(nonce_b as nat, 8);
}

/// Within one search, candidates that differ in the worker or in the nonce
/// differ in their trailer, and so in their object content.
pub proof fn lemma_candidates_distinct(
    spec: SearchSpec,
    id_a: u32,
    nonce_a: u32,
    id_b: u32,
    nonce_b: u32,
)
    requires
        id_a != id_b || nonce_a != nonce_b,
    ensures
        spec_trailer(id_a, nonce_a) != spec_trailer(id_b, nonce_b),
        spec_object_content(spec, id_a, nonce_a) != spec_object_content(spec, id_b, nonce_b),
{
    let t_a = spec_trailer(id_a, nonce_a);
    let t_b = spec_trailer(id_b, nonce_b);
    if t_a == t_b {
        lemma_trailer_injective(id_a, nonce_a, id_b, nonce_b);
    }
    let p = spec_preamble(spec);
    if p + t_a == p + t_b {
        assert(t_a =~= (p + t_a).subrange(p.len() as int, (p + t_a).len() as int));
        assert(t_b =~= (p + t_b).subrange(p.len() as int, (p + t_b).len() as int));
    }
}

/// Every candidate of one worker has the same length, whatever the nonce.
pub proof fn lemma_content_len(spec: SearchSpec, worker_id: u32, nonce: u32)
    ensures
        spec_object_content(spec, worker_id, nonce).len() == spec_object_content(
            spec,
            worker_id,
            0,
        ).len(),
        spec_object_wrapper(spec_object_content(spec, worker_id, nonce)).len()
            == spec_object_wrapper(spec_object_content(spec, worker_id, 0)).len(),
{
    lemma_hexadecimal_len_8(nonce as nat);
    lemma_hexadecimal_len_8(0);
}

/// With an empty target prefix the candidate for nonce zero wins, for every
/// worker: the first candidate evaluated is the result.
pub proof fn lemma_empty_prefix_first_win(spec: SearchSpec, worker_id: u32)
    requires
        spec.target_prefix.len() == 0,
    ensures
        first_win(spec, worker_id, 0),
{
    let digest = spec_digest(spec_object_content(spec, worker_id, 0));
    assert(digest.subrange(0, 0) =~= spec.target_prefix);
}

/// Encoding and digesting are functions of their inputs: the same fixed
/// data, worker and nonce give the same object content, the same wrapper and
/// the same digest, however often they are computed.
pub proof fn lemma_candidate_deterministic(
    spec_a: SearchSpec,
    id_a: u32,
    nonce_a: u32,
    spec_b: SearchSpec,
    id_b: u32,
    nonce_b: u32,
)
    requires
        spec_a == spec_b,
        id_a == id_b,
        nonce_a == nonce_b,
    ensures
        spec_object_content(spec_a, id_a, nonce_a) == spec_object_content(spec_b, id_b, nonce_b),
        spec_object_wrapper(spec_object_content(spec_a, id_a, nonce_a)) == spec_object_wrapper(
            spec_object_content(spec_b, id_b, nonce_b),
        ),
        spec_digest(spec_object_content(spec_a, id_a, nonce_a)) == spec_digest(
            spec_object_content(spec_b, id_b, nonce_b),
        ),
{
}

} // verus!
