//! The shapes of requests that manage API keys, and when a key expires.

use crate::clock::DAY_MILLIS;
use crate::fixed::{held, narrow};
use vstd::prelude::*;

verus! {

/// A request for a new API key.
#[derive(Debug, Clone)]
pub struct CreateApiKeyRequest {
    pub name: String,
    pub description: Option<String>,
    pub expires_in_days: Option<i64>,
    pub rate_limit_per_minute: Option<i32>,
    pub permissions: Option<Vec<String>>,
}

/// A request to change an API key: every part that is given replaces the
/// key's own.
#[derive(Debug, Clone)]
pub struct UpdateApiKeyRequest {
    pub name: Option<String>,
    pub description: Option<String>,
    pub is_active: Option<bool>,
    pub rate_limit_per_minute: Option<i32>,
    pub permissions: Option<Vec<String>>,
}

/// The requests per minute that a new key is allowed if the request names none.
pub const DEFAULT_RATE_LIMIT: i32 = 60;

/// The instant `days` days after `now`: when a key made at `now` to last
/// `days` days expires. Nothing if the instant cannot be held.
pub open spec fn expiry(now: i64, days: i64) -> Option<i64> {
    held(now + days * DAY_MILLIS)
}

/// The instant at which a key made at `now` to last `days` days expires.
pub fn expiry_at(now: i64, days: i64) -> (r: Option<i64>)
    ensures
        r == expiry(now, days),
{
    assert(-0x7fff_ffff_ffff_ffff_ffff_ffff_ffff <= days * 86_400_000
        <= 0x7fff_ffff_ffff_ffff_ffff_ffff_ffff) by (nonlinear_arith)
        requires
            -0x8000_0000_0000_0000 <= days <= 0x7fff_ffff_ffff_ffff,
    ;
    narrow(now as i128 + (days as i128) * (DAY_MILLIS as i128))
}

impl UpdateApiKeyRequest {
    /// Whether the request gives no part to replace.
    pub fn is_empty(&self) -> (r: bool)
        ensures
            r <==> self.name is None && self.description is None && self.is_active is None
                && self.rate_limit_per_minute is None && self.permissions is None,
    {
        self.name.is_none() && self.description.is_none() && self.is_active.is_none()
            && self.rate_limit_per_minute.is_none() && self.permissions.is_none()
    }
}

impl CreateApiKeyRequest {
    /// The requests per minute that the new key is allowed.
    pub fn rate_limit(&self) -> (r: i32)
        ensures
            r == (match self.rate_limit_per_minute {
                Some(limit) => limit,
                None => DEFAULT_RATE_LIMIT,
            }),
    {
        match self.rate_limit_per_minute {
            Some(limit) => limit,
            None => DEFAULT_RATE_LIMIT,
        }
    }
}

} // verus!
