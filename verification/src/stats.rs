use vstd::prelude::*;

verus! {

/// One row of the recent-requests listing, as read back from the store.
#[derive(Clone, Debug)]
pub struct RecentRequest {
    pub id: i64,
    pub endpoint: String,
    pub model: String,
    pub start_time: String,
    pub duration_ms: i64,
    pub input_tokens: i64,
    pub output_tokens: i64,
    pub is_error: bool,
}

/// Page-size parameter of the recent-requests listing.
#[derive(Clone, Copy, Debug)]
pub struct PaginationQuery {
    pub limit: i64,
}

/// The page size used when the client names none.
pub fn default_limit() -> (r: i64)
    ensures
        r == 100,
{
    100
}

/// The requested page size clamped to the served range.
pub open spec fn spec_clamped_limit(limit: i64) -> i64 {
    if limit > 1000 {
        1000
    } else if limit < 1 {
        1
    } else {
        limit
    }
}

impl PaginationQuery {
    /// The page size actually served: the requested one, held to at least one
    /// row and capped at one thousand.
    pub fn clamped_limit(&self) -> (r: i64)
        ensures
            r == spec_clamped_limit(self.limit),
            1 <= r <= 1000,
    {
        if self.limit > 1000 {
            1000
        } else if self.limit < 1 {
            1
        } else {
            self.limit
        }
    }
}

} // verus!
