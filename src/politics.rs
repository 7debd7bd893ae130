//! Editorial rules about articles.
use vstd::prelude::*;

use crate::entities::Article;

verus! {

/// How long an article stays recent, in whole hours.
pub const RECENT_HOURS: i64 = 48;

/// Whole hours from `from` to `to` (seconds), truncated toward zero.
pub open spec fn elapsed_hours(from: i64, to: i64) -> int {
    let d = to - from;
    if d >= 0 {
        d / 3600
    } else {
        -((-d) / 3600)
    }
}

pub struct ArticlePolitics;

impl ArticlePolitics {
    /// Whether at most `RECENT_HOURS` whole hours have passed between the
    /// article's creation and `now`.
    pub fn article_is_recent(article: Article, now: i64) -> (r: bool)
        ensures
            r == (elapsed_hours(article.created_at, now) <= RECENT_HOURS),
    {
        if now >= article.created_at {
            let elapsed: u128 = (now as i128 - article.created_at as i128) as u128;
            elapsed / 3600 <= RECENT_HOURS as u128
        } else {
            true
        }
    }
}

} // verus!
