//! Authorization and use-case orchestration for a newsroom backend: a
//! hierarchy of staff roles, the permissions each role grants, the storage
//! contract the use cases depend on, pagination arithmetic, the domain error
//! kinds, and the use cases that compose them.
use vstd::prelude::*;

pub mod role;
pub mod permissions;
pub mod errors;
pub mod entities;
pub mod repository;
pub mod pagination;
pub mod comment_feed;
pub mod services;
pub mod politics;

verus! {

} // verus!
