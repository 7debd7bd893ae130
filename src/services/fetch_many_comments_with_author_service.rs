//! Listing an article's visible comments with their authors, page by page.
use vstd::prelude::*;

use crate::comment_feed::CommentUserArticleRepositoryTrait;
use crate::entities::CommentWithAuthor;
use crate::errors::{generate_service_internal_error, DomainError};
use crate::pagination::{
    envelope, page_window, paginate, resolve_parameters, served_page, served_per_page, PaginationResponse,
};

verus! {

pub struct FetchManyArticleCommentsWithAuthorParams {
    pub page: Option<u32>,
    pub per_page: Option<u32>,
}

#[derive(Debug)]
pub struct FetchManyCommentsWithAuthorResponse {
    pub pagination: PaginationResponse,
    pub data: Vec<CommentWithAuthor>,
}

pub struct FetchManyArticleCommentsWithAuthorService<CommentUserArticleRepository: CommentUserArticleRepositoryTrait> {
    article_comment_repository: Box<CommentUserArticleRepository>,
}

impl<CommentUserArticleRepository: CommentUserArticleRepositoryTrait> FetchManyArticleCommentsWithAuthorService<
    CommentUserArticleRepository,
> {
    /// The visible comments of an article, in listing order.
    pub closed spec fn visible(&self, article_id: u128) -> Seq<CommentWithAuthor> {
        self.article_comment_repository.listing(article_id, false)
    }

    pub fn new(article_comment_repository: Box<CommentUserArticleRepository>) -> (r: Self)
        ensures
            forall|a: u128| #[trigger] r.visible(a) == article_comment_repository.listing(a, false),
    {
        Self { article_comment_repository }
    }

    /// The requested page of the article's visible comments (page 1 when none
    /// or 0 is asked for, `DEFAULT_PER_PAGE` items when no size is), with its
    /// envelope; a storage failure is internal.
    pub fn exec(&self, article_id: u128, params: FetchManyArticleCommentsWithAuthorParams) -> (r: Result<
        FetchManyCommentsWithAuthorResponse,
        DomainError,
    >)
        ensures
            r is Ok ==> r->Ok_0.data@ == page_window(
                self.visible(article_id),
                served_page(params.page),
                served_per_page(params.per_page),
            ) && r->Ok_0.pagination == envelope(
                params.page,
                params.per_page,
                self.visible(article_id).len() as u64,
            ) && self.visible(article_id).len() <= u64::MAX,
            r is Err ==> r->Err_0 is Internal,
    {
        let query = resolve_parameters(params.page, params.per_page);
        match self.article_comment_repository.find_many_comments(article_id, false, &query) {
            Err(e) => Err(
                generate_service_internal_error(
                    "Error occurred on Fetch Many Comments With Author Service, while fetching many comments from database",
                    &e,
                ),
            ),
            Ok(found) => {
                let total_items = found.1;
                Ok(
                    FetchManyCommentsWithAuthorResponse {
                        data: found.0,
                        pagination: paginate(params.page, params.per_page, total_items),
                    },
                )
            },
        }
    }
}

} // verus!
