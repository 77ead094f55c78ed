//! Partitioning a byte payload into consecutive fixed-size chunks: every
//! chunk has exactly the requested size except possibly the last, the chunks
//! cover the payload in order with no gaps or overlaps, and a chunk size of
//! zero is rejected rather than looping forever.

use vstd::prelude::*;
use vstd::string::*;
use vstd::slice::*;
use vstd::arithmetic::div_mod::lemma_basic_div;
use vstd::arithmetic::div_mod::lemma_div_plus_one;
use vstd::arithmetic::div_mod::lemma_fundamental_div_mod_converse_div;
use vstd::seq_lib::lemma_flatten_concat;
use crate::errors::BridgeError;

verus! {

/// The partition of `s` into consecutive chunks of `n` bytes, the last chunk
/// shorter when `n` does not divide the length. For `n == 0` the partition is
/// left empty; callers reject that size instead.
pub open spec fn chunks_of(s: Seq<u8>, n: nat) -> Seq<Seq<u8>>
    decreases s.len(),
{
    if n == 0 || s.len() == 0 {
        Seq::empty()
    } else if s.len() <= n {
        seq![s]
    } else {
        seq![s.subrange(0, n as int)] + chunks_of(s.subrange(n as int, s.len() as int), n)
    }
}

/// The chunk partition is exact: for a payload of length `L` and a positive
/// chunk size `n` there are exactly `ceil(L / n)` chunks, their concatenation
/// is the payload byte for byte, every chunk except the last holds exactly
/// `n` bytes, and the last is non-empty and holds at most `n`.
pub proof fn lemma_chunks_of(s: Seq<u8>, n: nat)
    requires
        n > 0,
    ensures
        chunks_of(s, n).len() == (s.len() + n - 1) as int / (n as int),
        chunks_of(s, n).flatten() == s,
        forall|i: int|
            0 <= i < chunks_of(s, n).len() - 1 ==> (#[trigger] chunks_of(s, n)[i]).len() == n,
        s.len() > 0 ==> chunks_of(s, n).len() > 0 && 0 < chunks_of(s, n).last().len() <= n,
    decreases s.len(),
{
    let cs = chunks_of(s, n);
    if s.len() == 0 {
        lemma_basic_div((n - 1) as int, n as int);
        assert(cs.flatten() =~= s);
    } else if s.len() <= n {
        lemma_fundamental_div_mod_converse_div(
            s.len() + n - 1,
            n as int,
            1,
            s.len() - 1,
        );
        cs.lemma_flatten_one_element();
        assert(cs.flatten() == s);
    } else {
        let head = s.subrange(0, n as int);
        let tail = s.subrange(n as int, s.len() as int);
        lemma_chunks_of(tail, n);
        // count: one more chunk than the tail's partition
        assert(cs.len() == 1 + chunks_of(tail, n).len());
        lemma_div_plus_one((s.len() - 1) as int, n as int);
        assert((tail.len() + n - 1) as int == (s.len() - 1) as int);
        // concatenation: the head chunk followed by the tail's bytes
        lemma_flatten_concat(seq![head], chunks_of(tail, n));
        seq![head].lemma_flatten_one_element();
        assert(cs.flatten() =~= head + chunks_of(tail, n).flatten());
        assert(head + tail =~= s);
        // sizes: the head chunk is full, the rest follow the tail's partition
        assert forall|i: int| 0 <= i < cs.len() - 1 implies (#[trigger] cs[i]).len() == n by {
            if i > 0 {
                assert(cs[i] == chunks_of(tail, n)[i - 1]);
            }
        }
        assert(cs.last() == chunks_of(tail, n).last());
    }
}

/// Split `data` into consecutive chunks of exactly `chunk_size` bytes, the
/// final chunk shorter if the length is not a multiple. A chunk size of zero
/// violates the contract and is rejected as an invalid argument.
pub fn chunk_bytes(data: &Vec<u8>, chunk_size: usize) -> (r: Result<Vec<Vec<u8>>, BridgeError>)
    ensures
        chunk_size == 0 ==> (r matches Err(e) && e is InvalidArgument),
        chunk_size > 0 ==> (r matches Ok(cs) && cs.deep_view() == chunks_of(
            data@,
            chunk_size as nat,
        )),
{
    if chunk_size == 0 {
        return Err(
            BridgeError::InvalidArgument(String::from_str("chunk size must be positive")),
        );
    }
    let len: usize = data.len();
    let mut chunks: Vec<Vec<u8>> = Vec::new();
    let mut pos: usize = 0;
    proof {
        assert(data@.subrange(0, len as int) =~= data@);
        assert(chunks.deep_view() =~~= Seq::<Seq<u8>>::empty());
    }
    while pos < len
        invariant
            chunk_size >= 1,
            len == data@.len(),
            pos <= len,
            chunks_of(data@, chunk_size as nat) == chunks.deep_view() + chunks_of(
                data@.subrange(pos as int, len as int),
                chunk_size as nat,
            ),
        decreases len - pos,
    {
        let take: usize = if len - pos < chunk_size {
            len - pos
        } else {
            chunk_size
        };
        let chunk: Vec<u8> = slice_to_vec(slice_subrange(data.as_slice(), pos, pos + take));
        let ghost pre = chunks.deep_view();
        let ghost rest = data@.subrange(pos as int, len as int);
        let ghost rest_after = data@.subrange((pos + take) as int, len as int);
        proof {
            assert(chunk@ =~= rest.subrange(0, take as int));
            if rest.len() <= chunk_size {
                assert(chunk@ =~= rest);
                assert(rest_after =~= Seq::<u8>::empty());
                assert(chunks_of(rest, chunk_size as nat) =~= seq![chunk@] + chunks_of(
                    rest_after,
                    chunk_size as nat,
                ));
            } else {
                assert(rest.subrange(chunk_size as int, rest.len() as int) =~= rest_after);
                assert(chunks_of(rest, chunk_size as nat) == seq![chunk@] + chunks_of(
                    rest_after,
                    chunk_size as nat,
                ));
            }
        }
        chunks.push(chunk);
        pos += take;
        proof {
            assert(chunks.deep_view() =~~= pre.push(chunk@));
            assert(pre.push(chunk@) + chunks_of(rest_after, chunk_size as nat) =~= pre + (
            seq![chunk@] + chunks_of(rest_after, chunk_size as nat)));
        }
    }
    proof {
        assert(data@.subrange(pos as int, len as int) =~= Seq::<u8>::empty());
        assert(chunks.deep_view() + Seq::<Seq<u8>>::empty() =~= chunks.deep_view());
    }
    Ok(chunks)
}

} // verus!
