//! A caller-held, provenance-tagged byte buffer, independent of the cache:
//! the bytes, the URL they came from, and the provider tag. Slicing is
//! bounds-clamped and never fails; releasing the buffer hands back the
//! identifier for the cleanup log line.

use vstd::prelude::*;
use vstd::slice::*;
use vstd::math::min;
use vstd::math::max;

verus! {

/// The mathematical content of a data buffer.
pub ghost struct BufferModel {
    pub data: Seq<u8>,
    pub source_url: Seq<char>,
    pub provider: Seq<char>,
}

/// A provenance-tagged byte buffer, immutable after construction.
pub struct CloudDataBuffer {
    data: Vec<u8>,
    source_url: String,
    provider: String,
}

impl View for CloudDataBuffer {
    type V = BufferModel;

    closed spec fn view(&self) -> BufferModel {
        BufferModel { data: self.data@, source_url: self.source_url@, provider: self.provider@ }
    }
}

impl CloudDataBuffer {
    pub fn new(data: Vec<u8>, url: String, provider: String) -> (r: CloudDataBuffer)
        ensures
            r@ == (BufferModel { data: data@, source_url: url@, provider: provider@ }),
    {
        CloudDataBuffer { data, source_url: url, provider }
    }

    /// A copy of the buffer's bytes.
    pub fn data(&self) -> (r: Vec<u8>)
        ensures
            r@ == self@.data,
    {
        slice_to_vec(self.data.as_slice())
    }

    pub fn length(&self) -> (r: usize)
        ensures
            r == self@.data.len(),
    {
        self.data.len()
    }

    pub fn source_url(&self) -> (r: String)
        ensures
            r@ == self@.source_url,
    {
        self.source_url.clone()
    }

    pub fn provider(&self) -> (r: String)
        ensures
            r@ == self@.provider,
    {
        self.provider.clone()
    }

    /// Bounds-clamped slicing: `end` is clamped to the buffer length, then
    /// `start` to the clamped end, so `0 <= start <= end <= length` always
    /// holds. Never fails for any pair of indices; a nonsensical range
    /// degrades silently to an empty slice. The result holds exactly
    /// `max(0, min(end, L) - min(start, min(end, L)))` bytes.
    pub fn slice(&self, start: usize, end: usize) -> (r: Vec<u8>)
        ensures
            r@ == self@.data.subrange(
                min(start as int, min(end as int, self@.data.len() as int)),
                min(end as int, self@.data.len() as int),
            ),
            r@.len() == max(
                0,
                min(end as int, self@.data.len() as int) - min(
                    start as int,
                    min(end as int, self@.data.len() as int),
                ),
            ),
    {
        let e: usize = if end < self.data.len() {
            end
        } else {
            self.data.len()
        };
        let s: usize = if start < e {
            start
        } else {
            e
        };
        slice_to_vec(slice_subrange(self.data.as_slice(), s, e))
    }

    /// The cleanup hook: consumes the buffer and hands back the source URL
    /// that identifies it, for the observable release-time log line. The
    /// host invokes it on every exit path that releases the buffer.
    pub fn release(self) -> (r: String)
        ensures
            r@ == self@.source_url,
    {
        self.source_url
    }
}

} // verus!
