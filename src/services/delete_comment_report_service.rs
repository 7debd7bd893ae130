//! Deleting a comment report. Deleting a report that does not exist is a bad
//! request.
use vstd::prelude::*;

use crate::entities::CommentReport;
use crate::errors::{generate_service_internal_error, DomainError};
use crate::permissions::{permissions, verify_role_has_permission, RolePermissions};
use crate::repository::Repository;
use crate::role::Role;

verus! {

pub struct DeleteCommentReportParams {
    pub staff_role: Role,
    pub com_report_id: i32,
}

/// Every outcome a delete-report call may have, given the reports before it
/// and after it.
pub open spec fn delete_comment_report_outcome(
    reports: Map<i32, CommentReport>,
    params: DeleteCommentReportParams,
    r: Result<(), DomainError>,
    after: Map<i32, CommentReport>,
) -> bool {
    let allowed = permissions(params.staff_role).contains(RolePermissions::DeleteReport);
    let present = reports.dom().contains(params.com_report_id);
    match r {
        Ok(_) => allowed && present && after == reports.remove(params.com_report_id),
        Err(e) => match e {
            DomainError::Unauthorized(_) => !allowed && after == reports,
            DomainError::BadRequest(_) => allowed && !present && after == reports,
            DomainError::Internal(_) => allowed && (after == reports || present),
            _ => false,
        },
    }
}

/// Decides on the answer of the report lookup: an absent report is a bad
/// request; a found one is the one to delete.
pub fn report_step(found: Option<CommentReport>) -> (r: Result<CommentReport, DomainError>)
    ensures
        found is None ==> r is Err && r->Err_0 is BadRequest,
        found is Some ==> r is Ok && r->Ok_0 == found->Some_0,
{
    match found {
        None => Err(DomainError::bad_request()),
        Some(rep) => Ok(rep),
    }
}

pub struct DeleteCommentReportService<CommentReportRepository: Repository<i32, CommentReport>> {
    comment_report_repository: Box<CommentReportRepository>,
}

impl<CommentReportRepository: Repository<i32, CommentReport>> DeleteCommentReportService<CommentReportRepository> {
    pub closed spec fn reports(&self) -> Map<i32, CommentReport> {
        self.comment_report_repository.rows()
    }

    pub fn new(comment_report_repository: Box<CommentReportRepository>) -> (r: Self)
        ensures
            r.reports() == comment_report_repository.rows(),
    {
        DeleteCommentReportService { comment_report_repository }
    }

    /// The store the service works on.
    pub fn repository(&self) -> (r: &CommentReportRepository)
        ensures
            r.rows() == self.reports(),
    {
        &self.comment_report_repository
    }

    /// Deletes the report if the role may delete reports; an absent report is
    /// a bad request.
    pub fn exec(&mut self, params: DeleteCommentReportParams) -> (r: Result<(), DomainError>)
        ensures
            delete_comment_report_outcome(old(self).reports(), params, r, final(self).reports()),
    {
        if !verify_role_has_permission(&params.staff_role, RolePermissions::DeleteReport) {
            return Err(DomainError::unauthorized());
        }
        let report = match self.comment_report_repository.find_by_id(params.com_report_id) {
            Err(e) => {
                return Err(
                    generate_service_internal_error(
                        "Error occurred on Delete Comment Report Service, while fetching the comment report from database",
                        &e,
                    ),
                );
            },
            Ok(found) => match report_step(found) {
                Err(e) => {
                    return Err(e);
                },
                Ok(rep) => rep,
            },
        };
        match self.comment_report_repository.delete(report) {
            Ok(_) => Ok(()),
            Err(e) => Err(
                generate_service_internal_error(
                    "Error occurred on Delete Comment Report Service, while deleting the comment report at database",
                    &e,
                ),
            ),
        }
    }
}

} // verus!
