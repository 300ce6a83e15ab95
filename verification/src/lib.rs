//! A caching, authenticating LDAP proxy core.
//!
//! The crate models the protocol messages a proxy session handles, the
//! per-connection session state machine, the upstream client protocol
//! (message-id correlation for bind and search), the search authorization
//! check, and the two cache backends: an in-process adaptive cache and a
//! tiered cache (in-process layer plus a remote key/value store).
//!
//! All I/O (TLS, sockets, the remote store, framing) lives outside this
//! crate; the functions here take the decoded values those edges produce
//! and decide what happens next.

use vstd::prelude::*;

pub mod proto;
pub mod keys;
pub mod policy;
pub mod tiered;
pub mod memcache;
pub mod cache;
pub mod upstream;
pub mod session;

verus! {

/// Number of bytes in one mebibyte.
pub const MEGABYTES: usize = 1048576;

/// Default capacity, in bytes, of the in-process fallback cache.
pub fn default_fallback_cache_bytes() -> (r: usize)
    ensures
        r == 256 * MEGABYTES,
{
    256 * MEGABYTES
}

/// Default prefix for keys written to the remote store.
pub fn default_redis_key_prefix() -> (r: String)
    ensures
        r@ == "ldap_proxy:"@,
{
    "ldap_proxy:".to_owned()
}

/// Where the original client address of a connection comes from.
#[derive(Debug, Clone, Copy, PartialEq, Eq, Structural)]
pub enum AddrInfoSource {
    NoInfo,
    ProxyV2,
}

impl Default for AddrInfoSource {
    fn default() -> (r: Self)
        ensures
            r == AddrInfoSource::NoInfo,
    {
        AddrInfoSource::NoInfo
    }
}

/// Which cache backend a proxy runs with, as configured.
#[derive(Debug)]
pub enum CacheConfig {
    Memory { size_bytes: usize },
    Redis { url: String, ttl_seconds: Option<u64>, key_prefix: String },
}

impl Default for CacheConfig {
    fn default() -> (r: Self)
        ensures
            r matches CacheConfig::Memory { size_bytes } && size_bytes == 256 * MEGABYTES,
    {
        CacheConfig::Memory { size_bytes: default_fallback_cache_bytes() }
    }
}

} // verus!
