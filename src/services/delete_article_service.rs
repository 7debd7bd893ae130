//! Deleting an article, on behalf of a user allowed to.
use vstd::prelude::*;

use crate::entities::{Article, User};
use crate::errors::{generate_service_internal_error, DomainError};
use crate::permissions::RolePermissions;
use crate::repository::{lookup, Repository};
use crate::services::{actor_may, resolve_actor};

verus! {

pub struct DeleteArticleParams {
    pub user_id: u128,
    pub article_id: u128,
}

/// Every outcome a delete-article call may have, given the users and the
/// articles before it, and the articles after it.
pub open spec fn delete_article_outcome(
    users: Map<u128, User>,
    articles: Map<u128, Article>,
    params: DeleteArticleParams,
    r: Result<(), DomainError>,
    after: Map<u128, Article>,
) -> bool {
    let allowed = actor_may(users, params.user_id, RolePermissions::DeleteArticle);
    let present = articles.dom().contains(params.article_id);
    match r {
        Ok(_) => allowed && present && after == articles.remove(params.article_id),
        Err(e) => match e {
            DomainError::Unauthorized(_) => !allowed && after == articles,
            DomainError::ResourceNotFound(_) => allowed && !present && after == articles,
            DomainError::BadRequest(_) => false,
            DomainError::Internal(_) => after == articles || (allowed && present),
        },
    }
}

/// A delete-article call by an actor that is missing or lacks the permission
/// writes nothing and fails: as unauthorized, or as internal when the user
/// store fails to answer. Once the actor lookup has answered, `actor_step`
/// fixes the unauthorized error exactly.
pub proof fn lemma_denied_delete_article_changes_nothing(
    users: Map<u128, User>,
    articles: Map<u128, Article>,
    params: DeleteArticleParams,
    r: Result<(), DomainError>,
    after: Map<u128, Article>,
)
    requires
        delete_article_outcome(users, articles, params, r, after),
        !actor_may(users, params.user_id, RolePermissions::DeleteArticle),
    ensures
        after == articles,
        r is Err,
        r->Err_0 is Unauthorized || r->Err_0 is Internal,
{
}

/// After a successful delete-article call the article is no longer found.
pub proof fn lemma_deleted_article_is_gone(
    users: Map<u128, User>,
    articles: Map<u128, Article>,
    params: DeleteArticleParams,
    r: Result<(), DomainError>,
    after: Map<u128, Article>,
)
    requires
        delete_article_outcome(users, articles, params, r, after),
        r is Ok,
    ensures
        lookup(after, params.article_id) is None,
{
}

/// Decides on the answer of the article lookup: an absent article is not
/// found; a found one is the one to delete.
pub fn article_step(found: Option<Article>) -> (r: Result<Article, DomainError>)
    ensures
        found is None ==> r is Err && r->Err_0 is ResourceNotFound,
        found is Some ==> r is Ok && r->Ok_0 == found->Some_0,
{
    match found {
        None => Err(DomainError::not_found()),
        Some(a) => Ok(a),
    }
}

pub struct DeleteArticleService<ArticleRepository: Repository<u128, Article>, UserRepository: Repository<u128, User>> {
    user_repository: Box<UserRepository>,
    article_repository: Box<ArticleRepository>,
}

impl<ArticleRepository: Repository<u128, Article>, UserRepository: Repository<u128, User>> DeleteArticleService<
    ArticleRepository,
    UserRepository,
> {
    pub closed spec fn users(&self) -> Map<u128, User> {
        self.user_repository.rows()
    }

    pub closed spec fn articles(&self) -> Map<u128, Article> {
        self.article_repository.rows()
    }

    pub fn new(article_repository: Box<ArticleRepository>, user_repository: Box<UserRepository>) -> (r: Self)
        ensures
            r.articles() == article_repository.rows(),
            r.users() == user_repository.rows(),
    {
        DeleteArticleService { article_repository, user_repository }
    }

    /// The article store the service works on.
    pub fn article_repository(&self) -> (r: &ArticleRepository)
        ensures
            r.rows() == self.articles(),
    {
        &self.article_repository
    }

    /// Deletes the article if the acting user exists and may delete articles;
    /// an absent article is not found.
    pub fn exec(&mut self, params: DeleteArticleParams) -> (r: Result<(), DomainError>)
        ensures
            delete_article_outcome(old(self).users(), old(self).articles(), params, r, final(self).articles()),
            final(self).users() == old(self).users(),
    {
        match resolve_actor(&*self.user_repository, params.user_id, RolePermissions::DeleteArticle) {
            Err(e) => {
                return Err(e);
            },
            Ok(_) => {},
        }
        let article = match self.article_repository.find_by_id(params.article_id) {
            Err(e) => {
                return Err(
                    generate_service_internal_error("Error occurred in Delete Article Service on finding the article", &e),
                );
            },
            Ok(found) => match article_step(found) {
                Err(e) => {
                    return Err(e);
                },
                Ok(a) => a,
            },
        };
        match self.article_repository.delete(article) {
            Ok(_) => Ok(()),
            Err(e) => Err(
                generate_service_internal_error("Error occurred in Delete Article Service on deleting the article", &e),
            ),
        }
    }
}

} // verus!
