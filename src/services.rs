//! The use cases. Each holds the stores it needs and runs one operation per
//! call, in a fixed order: resolve the acting user, check the permission,
//! load the target, change it, persist it. The first failure ends the call;
//! nothing is written before the permission check has passed.
use vstd::prelude::*;

pub mod delete_article_service;
pub mod delete_article_tag_service;
pub mod delete_comment_report_service;
pub mod fetch_many_comments_with_author_service;
pub mod get_user_service;
pub mod toggle_comment_visibility_service;

use crate::entities::{ArticleTag, CommentReport, User};
use crate::role::Role;
use crate::services::delete_article_tag_service::delete_article_tag_outcome;
use crate::services::delete_comment_report_service::{delete_comment_report_outcome, DeleteCommentReportParams};
use crate::errors::{generate_service_internal_error, DomainError};
use crate::permissions::{authorize, granted, permissions, RolePermissions};
use crate::repository::{lookup, Repository};

verus! {

/// Whether a looked-up actor exists and its role grants `p`.
pub open spec fn actor_allowed(found: Option<User>, p: RolePermissions) -> bool {
    match found {
        Some(u) => granted(u.role, p),
        None => false,
    }
}

/// Whether the user stored under `user_id` exists and its role grants `p`.
pub open spec fn actor_may(users: Map<u128, User>, user_id: u128, p: RolePermissions) -> bool {
    actor_allowed(lookup(users, user_id), p)
}

/// Decides on the answer of the actor lookup: an actor that was not found,
/// or whose role (possibly absent) lacks `required`, is unauthorized.
pub fn actor_step(found: Option<User>, required: RolePermissions) -> (r: Result<(), DomainError>)
    ensures
        r is Ok <==> actor_allowed(found, required),
        r is Err ==> r->Err_0 is Unauthorized,
{
    match found {
        None => Err(DomainError::unauthorized()),
        Some(user) => {
            if authorize(user.role, required) {
                Ok(())
            } else {
                Err(DomainError::unauthorized())
            }
        },
    }
}

/// Resolves the acting user and checks that its role grants `required`. A
/// storage failure is internal; otherwise `actor_step` decides on the answer.
pub fn resolve_actor<UR: Repository<u128, User>>(
    users: &UR,
    user_id: u128,
    required: RolePermissions,
) -> (r: Result<(), DomainError>)
    ensures
        r is Ok ==> actor_may(users.rows(), user_id, required),
        r is Err ==> (r->Err_0 is Unauthorized && !actor_may(users.rows(), user_id, required))
            || r->Err_0 is Internal,
{
    match users.find_by_id(user_id) {
        Err(e) => Err(generate_service_internal_error("Error occurred while finding the acting user", &e)),
        Ok(found) => actor_step(found, required),
    }
}

/// Deleting a target that is absent follows a per-entity policy and changes
/// nothing: for an article tag the call succeeds, for a comment report it is
/// a bad request. The only other result is an internal error, which arises
/// when the store fails to answer the lookup; once the lookup has answered
/// "absent", `tag_step` and `report_step` fix the no-op success and the bad
/// request exactly.
pub proof fn lemma_absent_target_deletion_policies(
    tags: Map<i32, ArticleTag>,
    role: Role,
    tag_id: i32,
    tag_result: Result<(), DomainError>,
    tags_after: Map<i32, ArticleTag>,
    reports: Map<i32, CommentReport>,
    report_params: DeleteCommentReportParams,
    report_result: Result<(), DomainError>,
    reports_after: Map<i32, CommentReport>,
)
    requires
        delete_article_tag_outcome(tags, role, tag_id, tag_result, tags_after),
        permissions(role).contains(RolePermissions::DeleteArticleTag),
        !tags.dom().contains(tag_id),
        delete_comment_report_outcome(reports, report_params, report_result, reports_after),
        permissions(report_params.staff_role).contains(RolePermissions::DeleteReport),
        !reports.dom().contains(report_params.com_report_id),
    ensures
        tags_after == tags,
        tag_result is Ok || tag_result->Err_0 is Internal,
        reports_after == reports,
        report_result is Err,
        report_result->Err_0 is BadRequest || report_result->Err_0 is Internal,
{
    assert(tags.remove(tag_id) =~= tags);
}

/// A delete-tag or delete-report call with a role that lacks the permission
/// fails as unauthorized and writes nothing.
pub proof fn lemma_denied_deletions_change_nothing(
    tags: Map<i32, ArticleTag>,
    role: Role,
    tag_id: i32,
    tag_result: Result<(), DomainError>,
    tags_after: Map<i32, ArticleTag>,
    reports: Map<i32, CommentReport>,
    report_params: DeleteCommentReportParams,
    report_result: Result<(), DomainError>,
    reports_after: Map<i32, CommentReport>,
)
    requires
        delete_article_tag_outcome(tags, role, tag_id, tag_result, tags_after),
        !permissions(role).contains(RolePermissions::DeleteArticleTag),
        delete_comment_report_outcome(reports, report_params, report_result, reports_after),
        !permissions(report_params.staff_role).contains(RolePermissions::DeleteReport),
    ensures
        tags_after == tags,
        tag_result is Err,
        tag_result->Err_0 is Unauthorized,
        reports_after == reports,
        report_result is Err,
        report_result->Err_0 is Unauthorized,
{
}

} // verus!
