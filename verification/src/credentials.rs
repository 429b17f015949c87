//! The caching policy for call credentials: when a cached credential is
//! still fresh enough to use, and what expiry a fresh one gets when its
//! provider reports none. Fetching credentials is the program's I/O; the
//! policy is decided here.

use vstd::prelude::*;

verus! {

/// A cached credential is refreshed this long before its expiry.
pub const REFRESH_MARGIN_MS: u64 = 300_000;

/// The lifetime assumed for a credential whose provider reports no expiry.
pub const DEFAULT_TTL_MS: u64 = 3_600_000;

/// Whether a cached credential may still be handed out, or must be
/// refreshed: it is usable exactly while its expiry lies more than the
/// refresh margin ahead of now.
pub fn cached_still_usable(expires_at_ms: u64, now_ms: u64) -> (r: bool)
    requires
        now_ms <= u64::MAX - REFRESH_MARGIN_MS,
    ensures
        r == (expires_at_ms > now_ms + REFRESH_MARGIN_MS),
{
    expires_at_ms > now_ms + REFRESH_MARGIN_MS
}

/// The expiry a freshly fetched credential is cached under: what its
/// provider reported, or the default lifetime from now when it reported
/// none.
pub fn expiry_or_default(reported_ms: Option<u64>, now_ms: u64) -> (r: u64)
    requires
        now_ms <= u64::MAX - DEFAULT_TTL_MS,
    ensures
        r == (match reported_ms {
            Some(e) => e as int,
            None => now_ms + DEFAULT_TTL_MS,
        }),
{
    match reported_ms {
        Some(e) => e,
        None => now_ms + DEFAULT_TTL_MS,
    }
}

} // verus!
