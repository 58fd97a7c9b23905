//! The dashboard's activity feed.
use vstd::prelude::*;

verus! {

/// The page of the activity feed asked for.
pub struct FeedQuery {
    pub page: Option<u32>,
}

/// Events shown per page of the dashboard feed.
pub const FEED_PER_PAGE: u32 = 20;

impl FeedQuery {
    /// The page asked for, or the first.
    pub fn page(&self) -> (p: u32)
        ensures
            p == match self.page { Some(n) => n, None => 1u32 },
    {
        match self.page {
            Some(n) => n,
            None => 1,
        }
    }
}

} // verus!
