//! Deleting an article tag. Deleting a tag that is already gone succeeds and
//! changes nothing.
use vstd::prelude::*;

use crate::entities::ArticleTag;
use crate::errors::{generate_service_internal_error, DomainError};
use crate::permissions::{permissions, verify_role_has_permission, RolePermissions};
use crate::repository::Repository;
use crate::role::Role;

verus! {

pub struct DeleteArticleTagParams<'run> {
    pub user_role: &'run Role,
    pub tag_id: i32,
}

/// Every outcome a delete-tag call may have, given the tags before it and
/// after it.
pub open spec fn delete_article_tag_outcome(
    tags: Map<i32, ArticleTag>,
    role: Role,
    tag_id: i32,
    r: Result<(), DomainError>,
    after: Map<i32, ArticleTag>,
) -> bool {
    let allowed = permissions(role).contains(RolePermissions::DeleteArticleTag);
    match r {
        Ok(_) => allowed && after == tags.remove(tag_id),
        Err(e) => match e {
            DomainError::Unauthorized(_) => !allowed && after == tags,
            DomainError::Internal(_) => allowed && (after == tags || tags.dom().contains(tag_id)),
            _ => false,
        },
    }
}

/// What a delete-tag call does once the lookup has answered.
pub enum TagDeletion {
    /// The tag is already gone: the call succeeds without touching the store.
    AlreadyAbsent,
    /// The tag is there and is to be deleted.
    Remove(ArticleTag),
}

/// Decides on the answer of the tag lookup: an absent tag needs no deletion.
pub fn tag_step(found: Option<ArticleTag>) -> (r: TagDeletion)
    ensures
        found is None ==> r is AlreadyAbsent,
        found is Some ==> r == TagDeletion::Remove(found->Some_0),
{
    match found {
        None => TagDeletion::AlreadyAbsent,
        Some(t) => TagDeletion::Remove(t),
    }
}

pub struct DeleteArticleTagService<ArticleTagRepository: Repository<i32, ArticleTag>> {
    article_tag_repository: ArticleTagRepository,
}

impl<ArticleTagRepository: Repository<i32, ArticleTag>> DeleteArticleTagService<ArticleTagRepository> {
    pub closed spec fn tags(&self) -> Map<i32, ArticleTag> {
        self.article_tag_repository.rows()
    }

    pub fn new(article_tag_repository: ArticleTagRepository) -> (r: Self)
        ensures
            r.tags() == article_tag_repository.rows(),
    {
        DeleteArticleTagService { article_tag_repository }
    }

    /// The store the service works on.
    pub fn repository(&self) -> (r: &ArticleTagRepository)
        ensures
            r.rows() == self.tags(),
    {
        &self.article_tag_repository
    }

    /// Deletes the tag if the role may delete tags; an absent tag is a
    /// success that changes nothing.
    pub fn exec<'run>(&mut self, params: DeleteArticleTagParams<'run>) -> (r: Result<(), DomainError>)
        ensures
            delete_article_tag_outcome(old(self).tags(), *params.user_role, params.tag_id, r, final(self).tags()),
    {
        if !verify_role_has_permission(params.user_role, RolePermissions::DeleteArticleTag) {
            return Err(DomainError::unauthorized());
        }
        let tag = match self.article_tag_repository.find_by_id(params.tag_id) {
            Err(e) => {
                return Err(
                    generate_service_internal_error("Error occurred in Delete Article Tag Service on finding the tag", &e),
                );
            },
            Ok(found) => match tag_step(found) {
                TagDeletion::AlreadyAbsent => {
                    assert(self.tags().remove(params.tag_id) =~= self.tags());
                    return Ok(());
                },
                TagDeletion::Remove(t) => t,
            },
        };
        match self.article_tag_repository.delete(tag) {
            Ok(_) => Ok(()),
            Err(e) => Err(
                generate_service_internal_error(
                    "Error occurred in Delete Article Tag Service on deleting the tag from the database",
                    &e,
                ),
            ),
        }
    }
}

} // verus!
