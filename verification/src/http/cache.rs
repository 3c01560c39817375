//! HTTP cache helpers.
//!
//! Only meaningful on nginx builds where `--with-http_cache` (the default for
//! the stock distribution) is enabled.
use vstd::prelude::*;

use crate::ffi::{
    ngx_uint_t, NGX_HTTP_CACHE_BYPASS, NGX_HTTP_CACHE_EXPIRED, NGX_HTTP_CACHE_HIT,
    NGX_HTTP_CACHE_MISS, NGX_HTTP_CACHE_REVALIDATED, NGX_HTTP_CACHE_SCARCE, NGX_HTTP_CACHE_STALE,
    NGX_HTTP_CACHE_UPDATING,
};

verus! {

/// Outcome of nginx's cache lookup for a request, mirroring the
/// `$upstream_cache_status` variable.
///
/// Each variant's position is the `NGX_HTTP_CACHE_*` number that nginx core
/// publishes for it, so a variant casts back to the value nginx reports
/// (`CacheStatus::Miss as u32 == NGX_HTTP_CACHE_MISS`), and so does
/// [`CacheStatus::to_raw`].  A module that keys its own storage by cache
/// status needs that number rather than the variant, and nginx numbers the
/// statuses from one: that is why [`CacheStatus::Unset`] stands first.
#[derive(Clone, Copy, Debug, PartialEq, Eq, Structural)]
#[non_exhaustive]
pub enum CacheStatus {
    /// nginx's `0`, "no cache lookup performed".  This is not an outcome of a
    /// lookup and [`CacheStatus::from_raw`] never returns it; it holds the
    /// place of nginx's `0` so that every outcome below casts to nginx's
    /// number.
    Unset,
    /// The request was a cache miss; nginx forwarded it to upstream and
    /// stored the response.
    Miss,
    /// The request bypassed the cache (e.g. `proxy_cache_bypass`).
    Bypass,
    /// The cached response had expired and was refreshed from upstream.
    Expired,
    /// A stale cached response was served (e.g. while upstream was
    /// unreachable).
    Stale,
    /// A stale cached response was served while the cache entry is being
    /// refreshed in the background.
    Updating,
    /// The cached response was revalidated against upstream and served from
    /// cache.
    Revalidated,
    /// The cached response was served directly without contacting upstream.
    Hit,
    /// `proxy_cache_min_uses` not yet reached; the response was not cached on
    /// this miss.
    Scarce,
}

impl CacheStatus {
    /// The number nginx reports for this status.
    pub open spec fn code(self) -> int {
        match self {
            CacheStatus::Unset => 0,
            CacheStatus::Miss => NGX_HTTP_CACHE_MISS as int,
            CacheStatus::Bypass => NGX_HTTP_CACHE_BYPASS as int,
            CacheStatus::Expired => NGX_HTTP_CACHE_EXPIRED as int,
            CacheStatus::Stale => NGX_HTTP_CACHE_STALE as int,
            CacheStatus::Updating => NGX_HTTP_CACHE_UPDATING as int,
            CacheStatus::Revalidated => NGX_HTTP_CACHE_REVALIDATED as int,
            CacheStatus::Hit => NGX_HTTP_CACHE_HIT as int,
            CacheStatus::Scarce => NGX_HTTP_CACHE_SCARCE as int,
        }
    }

    /// The status that nginx reports as `raw`, if `raw` is one of the
    /// documented statuses.
    pub open spec fn decode(raw: int) -> Option<CacheStatus> {
        if raw == NGX_HTTP_CACHE_MISS as int {
            Some(CacheStatus::Miss)
        } else if raw == NGX_HTTP_CACHE_BYPASS as int {
            Some(CacheStatus::Bypass)
        } else if raw == NGX_HTTP_CACHE_EXPIRED as int {
            Some(CacheStatus::Expired)
        } else if raw == NGX_HTTP_CACHE_STALE as int {
            Some(CacheStatus::Stale)
        } else if raw == NGX_HTTP_CACHE_UPDATING as int {
            Some(CacheStatus::Updating)
        } else if raw == NGX_HTTP_CACHE_REVALIDATED as int {
            Some(CacheStatus::Revalidated)
        } else if raw == NGX_HTTP_CACHE_HIT as int {
            Some(CacheStatus::Hit)
        } else if raw == NGX_HTTP_CACHE_SCARCE as int {
            Some(CacheStatus::Scarce)
        } else {
            None
        }
    }

    /// Convert the raw `r->upstream->cache_status` value reported by nginx
    /// into a typed variant.  Returns `None` for the "no cache lookup
    /// performed" sentinel (`0`) and for any value outside the documented
    /// range, so callers can distinguish "request had nothing to do with
    /// cache" from a known outcome.
    pub fn from_raw(raw: ngx_uint_t) -> (status: Option<Self>)
        ensures
            status == Self::decode(raw as int),
    {
        if raw == NGX_HTTP_CACHE_MISS as ngx_uint_t {
            Some(CacheStatus::Miss)
        } else if raw == NGX_HTTP_CACHE_BYPASS as ngx_uint_t {
            Some(CacheStatus::Bypass)
        } else if raw == NGX_HTTP_CACHE_EXPIRED as ngx_uint_t {
            Some(CacheStatus::Expired)
        } else if raw == NGX_HTTP_CACHE_STALE as ngx_uint_t {
            Some(CacheStatus::Stale)
        } else if raw == NGX_HTTP_CACHE_UPDATING as ngx_uint_t {
            Some(CacheStatus::Updating)
        } else if raw == NGX_HTTP_CACHE_REVALIDATED as ngx_uint_t {
            Some(CacheStatus::Revalidated)
        } else if raw == NGX_HTTP_CACHE_HIT as ngx_uint_t {
            Some(CacheStatus::Hit)
        } else if raw == NGX_HTTP_CACHE_SCARCE as ngx_uint_t {
            Some(CacheStatus::Scarce)
        } else {
            None
        }
    }

    /// The value nginx reports for this status, the inverse of
    /// [`CacheStatus::from_raw`].
    pub fn to_raw(self) -> (raw: ngx_uint_t)
        ensures
            raw as int == self.code(),
            raw as int == self as u32,
    {
        self as u32 as ngx_uint_t
    }
}

impl From<CacheStatus> for u32 {
    /// nginx's number for `status`, as [`CacheStatus::to_raw`] gives it.
    fn from(status: CacheStatus) -> (raw: u32)
        ensures
            raw == status as u32,
    {
        match status {
            CacheStatus::Unset => 0,
            CacheStatus::Miss => NGX_HTTP_CACHE_MISS,
            CacheStatus::Bypass => NGX_HTTP_CACHE_BYPASS,
            CacheStatus::Expired => NGX_HTTP_CACHE_EXPIRED,
            CacheStatus::Stale => NGX_HTTP_CACHE_STALE,
            CacheStatus::Updating => NGX_HTTP_CACHE_UPDATING,
            CacheStatus::Revalidated => NGX_HTTP_CACHE_REVALIDATED,
            CacheStatus::Hit => NGX_HTTP_CACHE_HIT,
            CacheStatus::Scarce => NGX_HTTP_CACHE_SCARCE,
        }
    }
}

impl vstd::std_specs::convert::FromSpecImpl<CacheStatus> for u32 {
    open spec fn obeys_from_spec() -> bool {
        true
    }

    open spec fn from_spec(status: CacheStatus) -> u32 {
        status.code() as u32
    }
}

/// Reading back the number of a status gives the status again:
/// `from_raw(s.to_raw()) == Some(s)` for every outcome `s` (every status but
/// the placeholder [`CacheStatus::Unset`], whose `0` is no outcome).
pub proof fn lemma_from_raw_of_to_raw(status: CacheStatus)
    requires
        status != CacheStatus::Unset,
    ensures
        CacheStatus::decode(status.code()) == Some(status),
{
}

/// Whenever `from_raw(raw)` finds a status, that status reports `raw` back:
/// `to_raw` is the inverse of `from_raw` on every value it accepts.
pub proof fn lemma_to_raw_of_from_raw(raw: int)
    ensures
        CacheStatus::decode(raw) matches Some(status) ==> status.code() == raw,
{
}

/// `from_raw` accepts exactly the documented range of statuses, which nginx
/// numbers from one: the "no cache lookup performed" sentinel `0` and every
/// value past the last status give `None`.
pub proof fn lemma_from_raw_accepts_documented_range(raw: int)
    ensures
        CacheStatus::decode(raw) is Some <==> NGX_HTTP_CACHE_MISS <= raw <= NGX_HTTP_CACHE_SCARCE,
        CacheStatus::decode(0) is None,
{
}

/// Distinct statuses report distinct numbers, and every outcome's number is
/// at least one.
pub proof fn lemma_to_raw_injective(a: CacheStatus, b: CacheStatus)
    ensures
        a.code() == b.code() ==> a == b,
        a != CacheStatus::Unset ==> a.code() >= 1,
{
}

/// Converting a status with `u32::from` gives the number the status casts to,
/// which is the number `to_raw` gives, and for every outcome it is the number
/// that `from_raw` reads back as that same status.
pub proof fn lemma_from_conversion_is_nginx_number(status: CacheStatus)
    ensures
        <u32 as vstd::std_specs::convert::FromSpec<CacheStatus>>::from_spec(status)
            == status as u32,
        status != CacheStatus::Unset ==> CacheStatus::decode(
            <u32 as vstd::std_specs::convert::FromSpec<CacheStatus>>::from_spec(status) as int,
        ) == Some(status),
        forall|other: CacheStatus|
            <u32 as vstd::std_specs::convert::FromSpec<CacheStatus>>::from_spec(status)
                == #[trigger] <u32 as vstd::std_specs::convert::FromSpec<CacheStatus>>::from_spec(
                other,
            ) ==> status == other,
{
}

/// A status cast to an integer is nginx's number for it.
pub proof fn lemma_cast_is_nginx_number(status: CacheStatus)
    ensures
        status as u32 == status.code(),
{
}

} // verus!
