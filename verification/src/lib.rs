//! Cloud-object fetch/cache bridge.
//!
//! The library accepts logical requests for remote binary objects by URL,
//! classifies which storage provider served them, retrieves bytes through an
//! injected transport port, memoizes successful retrievals keyed by URL, and
//! exposes the cached bytes as whole buffers, sliced views, or fixed-size
//! chunk sequences.

pub mod bridge;
pub mod buffer;
pub mod cache;
pub mod chunking;
pub mod errors;
pub mod provider;
pub mod response;
pub mod transport;
pub mod utils;

pub use bridge::CloudMetadata;
pub use bridge::CloudStorageBridge;
pub use buffer::CloudDataBuffer;
pub use cache::CacheStore;
pub use chunking::chunk_bytes;
pub use errors::BridgeError;
pub use errors::TransportError;
pub use provider::Provider;
pub use provider::classify;
pub use provider::detect_provider;
pub use response::CloudDataRequest;
pub use response::CloudDataResponse;
pub use transport::TransportPort;
pub use transport::TransportResponse;
pub use utils::DataPrismError;
pub use utils::validate_input_data;
