//! The nginx types and constants the library speaks of.
#![allow(non_camel_case_types)]

use vstd::prelude::*;

verus! {

/// nginx's unsigned machine word (`ngx_uint_t`).
pub type ngx_uint_t = usize;

/// nginx's signed machine word (`ngx_int_t`), used for status codes.
pub type ngx_int_t = isize;

/// nginx's atomic counter word (`ngx_atomic_t`, an `unsigned long`).
pub type ngx_atomic_t = u64;

/// `r->upstream->cache_status`: the request was a cache miss.
pub const NGX_HTTP_CACHE_MISS: u32 = 1;
/// The request bypassed the cache.
pub const NGX_HTTP_CACHE_BYPASS: u32 = 2;
/// The cached response had expired.
pub const NGX_HTTP_CACHE_EXPIRED: u32 = 3;
/// A stale cached response was served.
pub const NGX_HTTP_CACHE_STALE: u32 = 4;
/// A stale response was served while the entry is being refreshed.
pub const NGX_HTTP_CACHE_UPDATING: u32 = 5;
/// The cached response was revalidated against upstream.
pub const NGX_HTTP_CACHE_REVALIDATED: u32 = 6;
/// The cached response was served directly.
pub const NGX_HTTP_CACHE_HIT: u32 = 7;
/// `proxy_cache_min_uses` not yet reached.
pub const NGX_HTTP_CACHE_SCARCE: u32 = 8;

/// nginx's success code.
pub const NGX_OK: ngx_int_t = 0;
/// nginx's generic failure code.
pub const NGX_ERROR: ngx_int_t = -1;

} // verus!
