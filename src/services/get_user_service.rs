//! Looking a user up by id.
use vstd::prelude::*;

use crate::entities::User;
use crate::errors::{generate_service_internal_error, DomainError};
use crate::repository::{lookup, Repository};

verus! {

pub struct GetUserServiceParams {
    pub user_id: u128,
}

pub struct GetUserService<UserRepository: Repository<u128, User>> {
    user_repository: Box<UserRepository>,
}

impl<UserRepository: Repository<u128, User>> GetUserService<UserRepository> {
    pub closed spec fn users(&self) -> Map<u128, User> {
        self.user_repository.rows()
    }

    pub fn new(user_repository: Box<UserRepository>) -> (r: Self)
        ensures
            r.users() == user_repository.rows(),
    {
        GetUserService { user_repository }
    }

    /// The user stored under the id, if any; a storage failure is internal.
    pub fn exec(&self, params: GetUserServiceParams) -> (r: Result<Option<User>, DomainError>)
        ensures
            r is Ok ==> r->Ok_0 == lookup(self.users(), params.user_id),
            r is Err ==> r->Err_0 is Internal,
    {
        match self.user_repository.find_by_id(params.user_id) {
            Ok(user) => Ok(user),
            Err(e) => Err(
                generate_service_internal_error(
                    "Error occurred on Get User Service, while selecting user by Id from the database",
                    &e,
                ),
            ),
        }
    }
}

} // verus!
