//! Hiding a visible comment, or showing a hidden one, on behalf of a user
//! allowed to moderate comments.
use vstd::prelude::*;

use crate::entities::{toggled, Comment, User};
use crate::errors::{generate_service_internal_error, DomainError};
use crate::permissions::RolePermissions;
use crate::repository::Repository;
use crate::services::{actor_may, resolve_actor};

verus! {

pub struct ToggleCommentVisibilityParams {
    pub user_id: u128,
    pub comment_id: u128,
}

/// Every outcome a toggle call may have, given the users and comments before
/// it, and the comments after it.
pub open spec fn toggle_outcome(
    users: Map<u128, User>,
    comments: Map<u128, Comment>,
    params: ToggleCommentVisibilityParams,
    r: Result<Comment, DomainError>,
    after: Map<u128, Comment>,
) -> bool {
    let allowed = actor_may(users, params.user_id, RolePermissions::InactivateComment);
    let present = comments.dom().contains(params.comment_id);
    match r {
        Ok(c) => allowed && present && c == toggled(comments[params.comment_id]) && after == comments.insert(
            params.comment_id,
            c,
        ),
        Err(e) => match e {
            DomainError::Unauthorized(_) => !allowed && after == comments,
            DomainError::ResourceNotFound(_) => allowed && !present && after == comments,
            DomainError::BadRequest(_) => false,
            DomainError::Internal(_) => after == comments || (allowed && present),
        },
    }
}

/// A toggle call by an actor that is missing or lacks the permission writes
/// nothing and fails: as unauthorized, or as internal when the user store
/// fails to answer. Once the actor lookup has answered, `actor_step` fixes
/// the unauthorized error exactly.
pub proof fn lemma_denied_toggle_changes_nothing(
    users: Map<u128, User>,
    comments: Map<u128, Comment>,
    params: ToggleCommentVisibilityParams,
    r: Result<Comment, DomainError>,
    after: Map<u128, Comment>,
)
    requires
        toggle_outcome(users, comments, params, r, after),
        !actor_may(users, params.user_id, RolePermissions::InactivateComment),
    ensures
        after == comments,
        r is Err,
        r->Err_0 is Unauthorized || r->Err_0 is Internal,
{
}

/// Toggling the same comment twice, both times successfully, gives back the
/// comment as it was, visibility included, and leaves the store as it was.
pub proof fn lemma_toggle_twice_restores(
    users: Map<u128, User>,
    comments: Map<u128, Comment>,
    params: ToggleCommentVisibilityParams,
    first: Result<Comment, DomainError>,
    between: Map<u128, Comment>,
    second: Result<Comment, DomainError>,
    after: Map<u128, Comment>,
)
    requires
        toggle_outcome(users, comments, params, first, between),
        toggle_outcome(users, between, params, second, after),
        first is Ok,
        second is Ok,
    ensures
        second->Ok_0 == comments[params.comment_id],
        second->Ok_0.is_active == comments[params.comment_id].is_active,
        after == comments,
{
    let original = comments[params.comment_id];
    assert(toggled(toggled(original)) == original);
    assert(after =~= comments);
}

/// Decides on the answer of the comment lookup: an absent comment is not
/// found; a found one comes back with its visibility flipped, ready to save.
pub fn comment_step(found: Option<Comment>) -> (r: Result<Comment, DomainError>)
    ensures
        found is None ==> r is Err && r->Err_0 is ResourceNotFound,
        found is Some ==> r is Ok && r->Ok_0 == toggled(found->Some_0),
{
    match found {
        None => Err(DomainError::not_found()),
        Some(c) => {
            let mut c = c;
            c.toggle_visibility();
            Ok(c)
        },
    }
}

pub struct ToggleCommentVisibilityService<UserRepository: Repository<u128, User>, CommentRepository: Repository<u128, Comment>> {
    user_repository: Box<UserRepository>,
    comment_repository: Box<CommentRepository>,
}

impl<UserRepository: Repository<u128, User>, CommentRepository: Repository<u128, Comment>> ToggleCommentVisibilityService<
    UserRepository,
    CommentRepository,
> {
    pub closed spec fn users(&self) -> Map<u128, User> {
        self.user_repository.rows()
    }

    pub closed spec fn comments(&self) -> Map<u128, Comment> {
        self.comment_repository.rows()
    }

    pub fn new(user_repository: Box<UserRepository>, comment_repository: Box<CommentRepository>) -> (r: Self)
        ensures
            r.users() == user_repository.rows(),
            r.comments() == comment_repository.rows(),
    {
        ToggleCommentVisibilityService { user_repository, comment_repository }
    }

    /// The comment store the service works on.
    pub fn comment_repository(&self) -> (r: &CommentRepository)
        ensures
            r.rows() == self.comments(),
    {
        &self.comment_repository
    }

    /// Flips the comment's visibility and saves it, if the acting user exists
    /// and may moderate comments; an absent comment is not found.
    pub fn exec(&mut self, params: ToggleCommentVisibilityParams) -> (r: Result<Comment, DomainError>)
        ensures
            toggle_outcome(old(self).users(), old(self).comments(), params, r, final(self).comments()),
            final(self).users() == old(self).users(),
    {
        match resolve_actor(&*self.user_repository, params.user_id, RolePermissions::InactivateComment) {
            Err(e) => {
                return Err(e);
            },
            Ok(_) => {},
        }
        let comment = match self.comment_repository.find_by_id(params.comment_id) {
            Err(e) => {
                return Err(
                    generate_service_internal_error(
                        "Error occurred on Toggle Comment Visibility Service, while finding comment by id",
                        &e,
                    ),
                );
            },
            Ok(found) => match comment_step(found) {
                Err(e) => {
                    return Err(e);
                },
                Ok(c) => c,
            },
        };
        match self.comment_repository.save(comment) {
            Ok(saved) => Ok(saved),
            Err(e) => Err(
                generate_service_internal_error(
                    "Error occurred on Toggle Comment Visibility Service, while saving the comment on the database",
                    &e,
                ),
            ),
        }
    }
}

} // verus!
