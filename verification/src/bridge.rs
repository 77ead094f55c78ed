//! The fetch/cache bridge: orchestrates the classifier, the transport port
//! and the cache store to serve fetches, metadata requests, chunked
//! streaming, and cache inspection.

use vstd::prelude::*;
use vstd::string::*;
use crate::cache::CacheStore;
use crate::chunking::chunk_bytes;
use crate::chunking::chunks_of;
use crate::errors::BridgeError;
use crate::errors::TransportError;
use crate::provider::classify_spec;
use crate::provider::detect_provider;
use crate::provider::tag_spec;
use crate::response::CloudDataResponse;
use crate::response::ResponseModel;
use crate::transport::TransportPort;
use crate::transport::TransportResponse;
use crate::transport::effective_status;
use crate::transport::effective_status_spec;

verus! {

/// What a metadata request yields: the status, the headers passed through
/// opaquely from the transport response, and the provider classified from
/// the URL. No body bytes.
pub struct CloudMetadata {
    pub status: u16,
    pub headers: Vec<(String, String)>,
    pub provider: String,
}

/// Build the metadata for `url` from a transport response: the response's
/// status (defaulted to 200 where it carried none), its headers unchanged,
/// and the provider tag of the URL.
pub fn metadata_from_response(url: &str, resp: TransportResponse) -> (m: CloudMetadata)
    ensures
        m.status == effective_status_spec(resp.status),
        m.headers == resp.headers,
        m.provider@ == tag_spec(classify_spec(url@)),
{
    CloudMetadata {
        status: effective_status(resp.status),
        headers: resp.headers,
        provider: detect_provider(url),
    }
}

/// Admit a successful transport response into the cache: record the body
/// bytes under `url` together with the effective status and the provider
/// classified from the URL, and hand the bytes back to the caller.
pub fn admit_response(cache: &mut CacheStore, url: &str, resp: TransportResponse) -> (d: Vec<u8>)
    requires
        old(cache).wf(),
    ensures
        final(cache).wf(),
        d@ == resp.data@,
        final(cache)@ == old(cache)@.insert(
            url@,
            (ResponseModel {
                data: resp.data@,
                status: effective_status_spec(resp.status),
                provider: tag_spec(classify_spec(url@)),
            }),
        ),
{
    let status: u16 = effective_status(resp.status);
    let provider: String = detect_provider(url);
    let data_copy: Vec<u8> = vstd::slice::slice_to_vec(resp.data.as_slice());
    let entry: CloudDataResponse = CloudDataResponse::new(data_copy, status, provider);
    cache.insert_entry(String::from_str(url), entry);
    resp.data
}

/// The bridge. It exclusively owns its cache store and its transport port
/// handle; its view is the cache's mapping from URL to cached response.
pub struct CloudStorageBridge<T: TransportPort> {
    transport: T,
    cache: CacheStore,
}

impl<T: TransportPort> View for CloudStorageBridge<T> {
    type V = Map<Seq<char>, ResponseModel>;

    closed spec fn view(&self) -> Map<Seq<char>, ResponseModel> {
        self.cache@
    }
}

impl<T: TransportPort> CloudStorageBridge<T> {
    pub closed spec fn wf(&self) -> bool {
        self.cache.wf()
    }

    /// The transport port handle the bridge holds.
    pub closed spec fn spec_transport(&self) -> T {
        self.transport
    }

    /// A borrow of the transport port handle, for callers that observe
    /// their injected transport (a test double counting its calls).
    pub fn transport_ref(&self) -> (r: &T)
        ensures
            r == self.spec_transport(),
    {
        &self.transport
    }

    /// A bridge over the given transport, with an empty cache.
    pub fn new(transport: T) -> (r: CloudStorageBridge<T>)
        ensures
            r.wf(),
            r@ == Map::<Seq<char>, ResponseModel>::empty(),
            r.spec_transport() == transport,
    {
        CloudStorageBridge { transport, cache: CacheStore::new() }
    }

    /// Fetch the object at `url`.
    ///
    /// A cache hit returns a copy of the cached bytes at once and leaves the
    /// bridge — cache and transport handle alike — untouched: no transport
    /// call is made. A miss issues one GET through the transport port; on
    /// success the body bytes are recorded under `url` with the effective
    /// status and the URL's provider tag, and the same bytes are returned.
    /// A transport failure is propagated unchanged and the cache is not
    /// touched.
    pub fn fetch_cloud_data(&mut self, url: &str) -> (r: Result<Vec<u8>, TransportError>)
        requires
            old(self).wf(),
        ensures
            final(self).wf(),
            old(self)@.contains_key(url@) ==> (r matches Ok(d) && d@ == old(self)@[url@].data
                && final(self)@ == old(self)@ && final(self).spec_transport() == old(
                self,
            ).spec_transport()),
            !old(self)@.contains_key(url@) ==> match r {
                Ok(d) => final(self)@ == old(self)@.insert(
                    url@,
                    (ResponseModel {
                        data: d@,
                        status: final(self)@[url@].status,
                        provider: tag_spec(classify_spec(url@)),
                    }),
                ),
                Err(_) => final(self)@ == old(self)@,
            },
    {
        match self.cache.get_data(url) {
            Some(d) => Ok(d),
            None => {
                match self.transport.request(url, "GET") {
                    Ok(resp) => {
                        let d: Vec<u8> = admit_response(&mut self.cache, url, resp);
                        Ok(d)
                    },
                    Err(e) => Err(e),
                }
            },
        }
    }

    /// Fetch the metadata of the object at `url` with one HEAD request.
    /// The cache is never consulted nor populated: metadata is never
    /// cached. On success the metadata carries the provider tag classified
    /// from the URL; a transport failure is propagated unchanged.
    pub fn fetch_cloud_metadata(&mut self, url: &str) -> (r: Result<CloudMetadata, TransportError>)
        requires
            old(self).wf(),
        ensures
            final(self).wf(),
            final(self)@ == old(self)@,
            r matches Ok(m) ==> m.provider@ == tag_spec(classify_spec(url@)),
    {
        match self.transport.request(url, "HEAD") {
            Ok(resp) => Ok(metadata_from_response(url, resp)),
            Err(e) => Err(e),
        }
    }

    /// Fetch the object at `url` with one GET — deliberately bypassing the
    /// cache in both directions — and partition the full payload into
    /// consecutive chunks of `chunk_size` bytes, the final chunk shorter if
    /// the length is not a multiple. A chunk size of zero is rejected as an
    /// invalid argument; a transport failure is propagated unchanged.
    pub fn stream_cloud_data(&mut self, url: &str, chunk_size: usize) -> (r: Result<
        Vec<Vec<u8>>,
        BridgeError,
    >)
        requires
            old(self).wf(),
        ensures
            final(self).wf(),
            final(self)@ == old(self)@,
            chunk_size == 0 ==> (r matches Err(e) && e is InvalidArgument),
            chunk_size > 0 ==> match r {
                Ok(cs) => exists|payload: Seq<u8>|
                    cs.deep_view() == chunks_of(payload, chunk_size as nat),
                Err(e) => e is Transport,
            },
    {
        if chunk_size == 0 {
            return Err(
                BridgeError::InvalidArgument(String::from_str("chunk size must be positive")),
            );
        }
        match self.transport.request(url, "GET") {
            Ok(resp) => {
                match chunk_bytes(&resp.data, chunk_size) {
                    Ok(cs) => {
                        proof {
                            assert(cs.deep_view() == chunks_of(resp.data@, chunk_size as nat));
                        }
                        Ok(cs)
                    },
                    Err(e) => Err(e),
                }
            },
            Err(e) => Err(BridgeError::Transport(e)),
        }
    }

    /// Empty the cache unconditionally: afterwards no URL is cached, so the
    /// next fetch of any URL is a guaranteed miss.
    pub fn clear_cache(&mut self)
        requires
            old(self).wf(),
        ensures
            final(self).wf(),
            final(self)@ == Map::<Seq<char>, ResponseModel>::empty(),
            forall|k: Seq<char>| !final(self)@.contains_key(k),
    {
        self.cache.clear();
    }

    /// The number of cached entries.
    pub fn get_cache_size(&self) -> (r: usize)
        requires
            self.wf(),
        ensures
            r as nat == self@.dom().len(),
            self@.dom().finite(),
    {
        self.cache.len()
    }

    /// The cached URLs, one per entry, in unspecified order: the order is
    /// not part of the contract.
    pub fn get_cached_urls(&self) -> (r: Vec<String>)
        requires
            self.wf(),
        ensures
            r@.len() == self@.dom().len(),
            forall|t: int| 0 <= t < r@.len() ==> self@.contains_key((#[trigger] r@[t])@),
            forall|k: Seq<char>|
                self@.contains_key(k) ==> exists|t: int|
                    0 <= t < r@.len() && (#[trigger] r@[t])@ == k,
            forall|t1: int, t2: int|
                0 <= t1 < t2 < r@.len() ==> (#[trigger] r@[t1])@ != (#[trigger] r@[t2])@,
    {
        self.cache.urls()
    }
}

/// Memoization: a successful fetch leaves the cache mapping the URL to the
/// entry that holds exactly the bytes it returned. A second fetch of the
/// same URL with no intervening clear therefore meets the hit clause of
/// `fetch_cloud_data`: it returns those same bytes, changes nothing, and
/// makes no transport call.
pub proof fn lemma_fetch_is_memoized(
    m: Map<Seq<char>, ResponseModel>,
    u: Seq<char>,
    e: ResponseModel,
)
    ensures
        m.insert(u, e).contains_key(u),
        m.insert(u, e)[u] == e,
{
}

/// A cleared cache has no keys at all, so the fetch that follows a clear
/// cannot meet the hit clause of `fetch_cloud_data` for any URL: the miss
/// path runs and a transport call is made.
pub proof fn lemma_clear_guarantees_miss(u: Seq<char>)
    ensures
        !Map::<Seq<char>, ResponseModel>::empty().contains_key(u),
{
}

} // verus!
