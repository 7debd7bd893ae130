//! The storage contract for listing an article's comments with their
//! authors, page by page, and an in-memory store that meets it.
use vstd::prelude::*;

use crate::entities::CommentWithAuthor;
use crate::errors::StorageError;
use crate::pagination::{page_window, PaginationParameters};
use crate::repository::Keyed;

verus! {

/// A page of comments and the number of comments over all pages.
#[derive(Debug)]
pub struct FindManyCommentsWithAuthorResponse(pub Vec<CommentWithAuthor>, pub u64);

/// What a store of comments with their authors provides.
pub trait CommentUserArticleRepositoryTrait: Sized {
    /// Every comment of the article that a listing shows, in listing order;
    /// hidden comments only when `include_inactive` holds.
    spec fn listing(&self, article_id: u128, include_inactive: bool) -> Seq<CommentWithAuthor>;

    /// The page of the listing that `params` selects, and the listing's length.
    fn find_many_comments(
        &self,
        article_id: u128,
        include_inactive: bool,
        params: &PaginationParameters,
    ) -> (r: Result<FindManyCommentsWithAuthorResponse, StorageError>)
        ensures
            r is Ok ==> r->Ok_0.0@ == page_window(
                self.listing(article_id, include_inactive),
                params.page,
                params.items_per_page,
            ) && r->Ok_0.1 == self.listing(article_id, include_inactive).len(),
    ;
}

/// Whether a listing of `article_id`'s comments shows `c`.
pub open spec fn shown(c: CommentWithAuthor, article_id: u128, include_inactive: bool) -> bool {
    c.article_id == Some(article_id) && (include_inactive || c.is_active)
}

/// The entries of `s` that a listing of `article_id`'s comments shows, in order.
pub open spec fn shown_in(s: Seq<CommentWithAuthor>, article_id: u128, include_inactive: bool) -> Seq<
    CommentWithAuthor,
>
    decreases s.len(),
{
    if s.len() == 0 {
        Seq::empty()
    } else {
        let before = shown_in(s.drop_last(), article_id, include_inactive);
        if shown(s.last(), article_id, include_inactive) {
            before.push(s.last())
        } else {
            before
        }
    }
}

/// Comments kept in memory in the order they were added, for tests and local
/// runs. It can be switched to unavailable, in which case every call fails.
pub struct MemoryCommentFeed {
    items: Vec<CommentWithAuthor>,
    available: bool,
}

impl MemoryCommentFeed {
    /// Every comment held, in order.
    pub closed spec fn entries(&self) -> Seq<CommentWithAuthor> {
        self.items@
    }

    pub closed spec fn is_available(&self) -> bool {
        self.available
    }

    /// An empty, available store.
    pub fn new() -> (r: Self)
        ensures
            r.entries() == Seq::<CommentWithAuthor>::empty(),
            r.is_available(),
    {
        MemoryCommentFeed { items: Vec::new(), available: true }
    }

    /// Adds a comment after the ones already held.
    pub fn push(&mut self, comment: CommentWithAuthor)
        ensures
            final(self).entries() == old(self).entries().push(comment),
            final(self).is_available() == old(self).is_available(),
    {
        self.items.push(comment);
    }

    /// Makes every later call succeed (`true`) or fail (`false`).
    pub fn set_available(&mut self, available: bool)
        ensures
            final(self).entries() == old(self).entries(),
            final(self).is_available() == available,
    {
        self.available = available;
    }

    /// Every comment the listing shows, in order.
    fn shown_comments(&self, article_id: u128, include_inactive: bool) -> (r: Vec<CommentWithAuthor>)
        ensures
            r@ == shown_in(self.items@, article_id, include_inactive),
    {
        let mut out: Vec<CommentWithAuthor> = Vec::new();
        let mut i: usize = 0;
        while i < self.items.len()
            invariant
                0 <= i <= self.items@.len(),
                out@ == shown_in(self.items@.subrange(0, i as int), article_id, include_inactive),
            decreases self.items@.len() - i,
        {
            let ghost prefix = self.items@.subrange(0, i as int + 1);
            assert(prefix.drop_last() =~= self.items@.subrange(0, i as int));
            assert(prefix.last() == self.items@[i as int]);
            let c = &self.items[i];
            let belongs = match c.article_id {
                Some(a) => a == article_id,
                None => false,
            };
            if belongs && (include_inactive || c.is_active) {
                out.push(c.duplicate());
            }
            i = i + 1;
        }
        assert(self.items@.subrange(0, self.items@.len() as int) =~= self.items@);
        out
    }
}

impl CommentUserArticleRepositoryTrait for MemoryCommentFeed {
    open spec fn listing(&self, article_id: u128, include_inactive: bool) -> Seq<CommentWithAuthor> {
        shown_in(self.entries(), article_id, include_inactive)
    }

    fn find_many_comments(
        &self,
        article_id: u128,
        include_inactive: bool,
        params: &PaginationParameters,
    ) -> (r: Result<FindManyCommentsWithAuthorResponse, StorageError>) {
        if !self.available {
            return Err(StorageError { detail: "store unavailable".to_owned() });
        }
        let all = self.shown_comments(article_id, include_inactive);
        let n = all.len();
        let start: u128 = if params.page == 0 {
            0
        } else {
            let before: u128 = (params.page - 1) as u128;
            assert(before * params.items_per_page as u128 <= 0xffff_ffffu128 * 0xffff_ffffu128) by (nonlinear_arith)
                requires
                    before <= 0xffff_ffffu128,
                    params.items_per_page <= 0xffff_ffffu32,
            ;
            before * params.items_per_page as u128
        };
        let mut page: Vec<CommentWithAuthor> = Vec::new();
        if start < n as u128 {
            let first = start as usize;
            let end: usize = if start + params.items_per_page as u128 >= n as u128 {
                n
            } else {
                (start + params.items_per_page as u128) as usize
            };
            let mut j: usize = first;
            while j < end
                invariant
                    first <= j <= end,
                    end <= all@.len(),
                    page@ == all@.subrange(first as int, j as int),
                decreases end - j,
            {
                page.push(all[j].duplicate());
                assert(page@ =~= all@.subrange(first as int, j + 1));
                j = j + 1;
            }
        }
        assert(page@ =~= page_window(all@, params.page, params.items_per_page));
        Ok(FindManyCommentsWithAuthorResponse(page, n as u64))
    }
}

} // verus!
