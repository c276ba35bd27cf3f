//! The search worker: one lane of nonce space, walked upwards from zero
//! until a candidate's digest begins with the target prefix.

use crate::candidate::{
    first_win, fits, lemma_content_len, lemma_empty_prefix_first_win, spec_object_content,
    spec_object_wrapper, wins, SearchSpec,
};
use crate::digest::{is_lower_hex, sha1_hex, sha1_result_str, spec_matches};
use crate::numeral::{push_decimal, push_hexadecimal, DASH};
use crate::timestamp::Timestamp;
use crypto::digest::Digest;
use crypto::sha1::Sha1;
use vstd::prelude::*;
use vstd::string::StringSliceAdditionalSpecFns;
use vstd::utf8::encode_utf8;

verus! {

/// A search worker: the fixed commit data, the worker's index, and the
/// digest context that it reuses for every candidate.
pub struct Worker {
    id: u32,
    digest: Sha1,
    target: String,
    tree: String,
    parent: String,
    author: String,
    message: String,
    tstamp: Vec<u8>,
}

/// The winning candidate of a search.
#[derive(Debug, PartialEq, Eq)]
pub struct Found {
    /// Index of the worker that found it.
    pub worker_id: u32,
    /// The nonce of the winning candidate.
    pub nonce: u32,
    /// The commit's object content, to be stored as it is.
    pub object_content: Vec<u8>,
    /// The digest of the content's wrapper: the identifier of the commit.
    pub digest_hex: String,
}

impl Found {
    /// Whether this is the winning candidate that worker `worker_id` of the
    /// search `spec` builds for the nonce it names: its content is that
    /// candidate's, its digest is the digest of the content's wrapper, and
    /// the digest begins with the target prefix.
    pub open spec fn is_winner_of(&self, spec: SearchSpec, worker_id: u32) -> bool {
        &&& self.worker_id == worker_id
        &&& self.object_content@ == spec_object_content(spec, worker_id, self.nonce)
        &&& self.digest_hex@ == sha1_hex(spec_object_wrapper(self.object_content@))
        &&& spec_matches(encode_utf8(self.digest_hex@), spec.target_prefix)
        &&& wins(spec, worker_id, self.nonce)
    }
}

/// Why a worker ended without a winning candidate.
#[derive(Clone, Copy, Debug, PartialEq, Eq)]
pub enum SearchError {
    /// The candidates are too long for the digest to take.
    TooLong,
    /// No nonce of the worker's lane gives a digest with the target prefix.
    Exhausted,
}

/// Appends `bytes` to `buf`.
fn append(buf: &mut Vec<u8>, bytes: &[u8])
    ensures
        final(buf)@ == old(buf)@ + bytes@,
{
    buf.extend_from_slice(bytes);
    assert(final(buf)@ =~= old(buf)@ + bytes@);
}

impl Worker {
    /// The fixed data of the search that this worker takes part in.
    pub closed spec fn search_spec(&self) -> SearchSpec {
        SearchSpec {
            tree_id: encode_utf8(self.tree@),
            parent_id: encode_utf8(self.parent@),
            author_line: encode_utf8(self.author@),
            message: encode_utf8(self.message@),
            timestamp: self.tstamp@,
            target_prefix: encode_utf8(self.target@),
        }
    }

    /// The worker's index, which every candidate of it carries.
    pub closed spec fn id(&self) -> u32 {
        self.id
    }

    /// A worker with index `id` for the search that the other arguments
    /// describe. The timestamp is rendered once, here.
    pub fn new(
        id: u32,
        target: String,
        tree: String,
        parent: String,
        author: String,
        message: String,
        timestamp: Timestamp,
    ) -> (worker: Worker)
        ensures
            worker.id() == id,
            worker.search_spec() == (SearchSpec {
                tree_id: encode_utf8(tree@),
                parent_id: encode_utf8(parent@),
                author_line: encode_utf8(author@),
                message: encode_utf8(message@),
                timestamp: timestamp.spec_render(),
                target_prefix: encode_utf8(target@),
            }),
    {
        Worker {
            id,
            digest: Sha1::new(),
            target,
            tree,
            parent,
            author,
            message,
            tstamp: timestamp.render(),
        }
    }

    /// Builds the candidate for the nonce `value`: its object content and
    /// the wrapper to digest.
    pub fn generate_blob(&self, value: u32) -> (blob: (Vec<u8>, Vec<u8>))
        ensures
            blob.0@ == spec_object_content(self.search_spec(), self.id(), value),
            blob.1@ == spec_object_wrapper(blob.0@),
    {
        let mut raw: Vec<u8> = Vec::new();
        append(&mut raw, "tree ".as_bytes());
        append(&mut raw, self.tree.as_str().as_bytes());
        append(&mut raw, "\nparent ".as_bytes());
        append(&mut raw, self.parent.as_str().as_bytes());
        append(&mut raw, "\nauthor ".as_bytes());
        append(&mut raw, self.author.as_str().as_bytes());
        append(&mut raw, " ".as_bytes());
        append(&mut raw, self.tstamp.as_slice());
        append(&mut raw, "\ncommitter ".as_bytes());
        append(&mut raw, self.author.as_str().as_bytes());
        append(&mut raw, " ".as_bytes());
        append(&mut raw, self.tstamp.as_slice());
        append(&mut raw, "\n\n".as_bytes());
        append(&mut raw, self.message.as_str().as_bytes());
        append(&mut raw, "\n".as_bytes());
        push_decimal(&mut raw, self.id as u64, 2);
        raw.push(DASH);
        push_hexadecimal(&mut raw, value as u64, 8);
        assert(raw@ =~= spec_object_content(self.search_spec(), self.id(), value));

        let mut blob: Vec<u8> = Vec::new();
        append(&mut blob, "commit ".as_bytes());
        push_decimal(&mut blob, raw.len() as u64, 1);
        blob.push(0);
        append(&mut blob, raw.as_slice());
        assert(blob@ =~= spec_object_wrapper(raw@));
        (raw, blob)
    }

    /// Digests a wrapper with the worker's own context, which is reset and
    /// fed anew on every call.
    pub fn calculate(&mut self, blob: &[u8]) -> (hex: String)
        requires
            blob@.len() * 8 <= u64::MAX,
        ensures
            hex@ == sha1_hex(blob@),
            hex@.len() == 40,
            forall|i: int| 0 <= i < hex@.len() ==> is_lower_hex(#[trigger] hex@[i]),
            final(self).search_spec() == old(self).search_spec(),
            final(self).id() == old(self).id(),
    {
        self.digest.reset();
        self.digest.input(blob);
        sha1_result_str(&mut self.digest)
    }

    /// Whether the worker's candidates are short enough to be digested.
    pub fn fits_digest(&self) -> (ok: bool)
        ensures
            ok == fits(self.search_spec(), self.id()),
    {
        let (_, blob) = self.generate_blob(0);
        blob.len() as u64 <= u64::MAX / 8
    }

    /// Evaluates the candidate for one nonce: builds it, digests its
    /// wrapper, and reports it if the digest begins with the target prefix.
    fn attempt(&mut self, value: u32) -> (found: Option<Found>)
        requires
            fits(old(self).search_spec(), old(self).id()),
        ensures
            final(self).search_spec() == old(self).search_spec(),
            final(self).id() == old(self).id(),
            found is Some <==> wins(old(self).search_spec(), old(self).id(), value),
            found matches Some(f) ==> f.nonce == value && f.is_winner_of(
                old(self).search_spec(),
                old(self).id(),
            ),
    {
        let (raw, blob) = self.generate_blob(value);
        proof {
            lemma_content_len(self.search_spec(), self.id(), value);
        }
        let result = self.calculate(blob.as_slice());
        if crate::digest::matches(result.as_str(), self.target.as_str()) {
            Some(
                Found { worker_id: self.id, nonce: value, object_content: raw, digest_hex: result },
            )
        } else {
            None
        }
    }

    /// Walks the nonces from `first` up to and including `last` and returns
    /// the first candidate among them whose digest begins with the target
    /// prefix.
    pub fn search(&mut self, first: u32, last: u32) -> (outcome: Result<Found, SearchError>)
        ensures
            final(self).search_spec() == old(self).search_spec(),
            final(self).id() == old(self).id(),
            match outcome {
                Ok(found) => {
                    &&& fits(old(self).search_spec(), old(self).id())
                    &&& found.is_winner_of(old(self).search_spec(), old(self).id())
                    &&& first <= found.nonce <= last
                    &&& forall|earlier: u32|
                        first <= earlier < found.nonce ==> !wins(
                            old(self).search_spec(),
                            old(self).id(),
                            earlier,
                        )
                },
                Err(SearchError::TooLong) => !fits(old(self).search_spec(), old(self).id()),
                Err(SearchError::Exhausted) => {
                    &&& fits(old(self).search_spec(), old(self).id())
                    &&& forall|nonce: u32|
                        first <= nonce <= last ==> !wins(
                            old(self).search_spec(),
                            old(self).id(),
                            nonce,
                        )
                },
            },
    {
        if !self.fits_digest() {
            return Err(SearchError::TooLong);
        }
        if first > last {
            return Err(SearchError::Exhausted);
        }
        let mut value: u32 = first;
        loop
            invariant
                self.search_spec() == old(self).search_spec(),
                self.id() == old(self).id(),
                fits(self.search_spec(), self.id()),
                first <= value <= last,
                forall|earlier: u32|
                    first <= earlier < value ==> !wins(self.search_spec(), self.id(), earlier),
            decreases last - value,
        {
            match self.attempt(value) {
                Some(found) => {
                    return Ok(found);
                },
                None => {},
            }
            if value == last {
                return Err(SearchError::Exhausted);
            }
            value += 1;
        }
    }

    /// Walks the nonces upwards from zero and returns the first candidate
    /// whose digest begins with the target prefix. With an empty prefix that
    /// is the candidate for nonce zero.
    pub fn work(&mut self) -> (outcome: Result<Found, SearchError>)
        ensures
            final(self).search_spec() == old(self).search_spec(),
            final(self).id() == old(self).id(),
            match outcome {
                Ok(found) => {
                    &&& fits(old(self).search_spec(), old(self).id())
                    &&& found.is_winner_of(old(self).search_spec(), old(self).id())
                    &&& first_win(old(self).search_spec(), old(self).id(), found.nonce)
                },
                Err(SearchError::TooLong) => !fits(old(self).search_spec(), old(self).id()),
                Err(SearchError::Exhausted) => {
                    &&& fits(old(self).search_spec(), old(self).id())
                    &&& forall|nonce: u32| !wins(old(self).search_spec(), old(self).id(), nonce)
                },
            },
            old(self).search_spec().target_prefix.len() == 0 && fits(
                old(self).search_spec(),
                old(self).id(),
            ) ==> outcome is Ok && outcome->Ok_0.nonce == 0,
    {
        proof {
            if self.search_spec().target_prefix.len() == 0 {
                lemma_empty_prefix_first_win(self.search_spec(), self.id());
            }
        }
        self.search(0, u32::MAX)
    }
}

} // verus!
