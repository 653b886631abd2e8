//! Application settings with their out-of-the-box values.

use vstd::prelude::*;

verus! {

/// Tunable application settings.
#[derive(Debug, Clone)]
pub struct Settings {
    /// Subscription publishing interval, in milliseconds.
    pub subscription_interval_ms: u32,
    /// Upper bound on watchlist entries offered by the interface.
    pub max_watchlist_items: usize,
    /// How much trend history the interface shows, in seconds.
    pub trending_history_seconds: u32,
    /// Whether bookmarks are saved without asking.
    pub auto_save_bookmarks: bool,
}

impl Default for Settings {
    /// One-second updates, fifty watch items, five minutes of trend.
    fn default() -> (r: Self)
        ensures
            r.subscription_interval_ms == 1000,
            r.max_watchlist_items == 50,
            r.trending_history_seconds == 300,
            r.auto_save_bookmarks,
    {
        Self {
            subscription_interval_ms: 1000,
            max_watchlist_items: 50,
            trending_history_seconds: 300,
            auto_save_bookmarks: true,
        }
    }
}

} // verus!
