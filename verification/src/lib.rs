pub mod account;
pub mod apub;
pub mod engine;
pub mod entities;
pub mod error;
pub mod inbox;
pub mod laws;
pub mod listing;
pub mod messages;
pub mod moderation;
pub mod password;
pub mod requests;
pub mod trusted;
pub mod settings;
pub mod store;
pub mod store_items;
pub mod store_ops;
pub mod validate;

use vstd::prelude::*;

verus! {

/// Page size used by the listing commands when the caller gives none.
pub const DEFAULT_PAGE_LIMIT: u64 = 10;

/// The page size a listing command uses.
pub open spec fn spec_limit(limit: Option<u64>) -> int {
    match limit {
        Some(l) => l as int,
        None => DEFAULT_PAGE_LIMIT as int,
    }
}

/// The number of leading entries a listing command skips; pages are 1-based,
/// and the offset saturates at the machine limit.
pub open spec fn spec_offset(page: Option<u64>, limit: Option<u64>) -> int {
    let p: int = match page {
        Some(p) => if p >= 1 {
            p as int
        } else {
            1
        },
        None => 1,
    };
    if (p - 1) * spec_limit(limit) > u64::MAX {
        u64::MAX as int
    } else {
        (p - 1) * spec_limit(limit)
    }
}

/// Turns the 1-based `page` / `limit` pagination inputs into an offset and a
/// count, as every listing command interprets them.
pub fn limit_and_offset(page: Option<u64>, limit: Option<u64>) -> (r: (u64, u64))
    ensures
        r.0 == spec_offset(page, limit),
        r.1 == spec_limit(limit),
{
    let l: u64 = match limit {
        Some(l) => l,
        None => DEFAULT_PAGE_LIMIT,
    };
    let p: u64 = match page {
        Some(p) => if p >= 1 {
            p
        } else {
            1
        },
        None => 1,
    };
    let off: u64 = match (p - 1).checked_mul(l) {
        Some(o) => o,
        None => u64::MAX,
    };
    (off, l)
}

} // verus!
