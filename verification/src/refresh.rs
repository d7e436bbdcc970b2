//! The decisions of the cache-refresh loop. The loop itself — the
//! timer, the lock, the fetch — runs outside the library and feeds
//! each outcome through these functions, so what the cache holds
//! after any cycle is pinned down here.

use vstd::prelude::*;
use crate::client::TailscaleError;
use crate::traefik::DynamicConfig;

verus! {

/// What one refresh cycle leaves in the cache: a successful
/// synthesis replaces the cached configuration; a failure keeps the
/// previous one unchanged.
pub fn apply_refresh(
    cache: Option<DynamicConfig>,
    result: Result<DynamicConfig, TailscaleError>,
) -> (r: Option<DynamicConfig>)
    ensures
        (match result {
            Ok(c) => r == Some(c),
            Err(_) => r == cache,
        }),
{
    match result {
        Ok(c) => Some(c),
        Err(_) => cache,
    }
}

/// What the read path serves: the cached configuration when there
/// is one; otherwise whatever on-demand generation returned, error
/// and all.
pub fn resolve_read(
    cached: Option<DynamicConfig>,
    generated: Result<DynamicConfig, TailscaleError>,
) -> (r: Result<DynamicConfig, TailscaleError>)
    ensures
        (match cached {
            Some(c) => r == Ok::<DynamicConfig, TailscaleError>(c),
            None => r == generated,
        }),
{
    match cached {
        Some(c) => Ok(c),
        None => generated,
    }
}

} // verus!
