//! The closed set of domain error kinds. Each carries a stable numeric code
//! (the HTTP status the transport reports it with) and a fixed message.
use vstd::prelude::*;

verus! {

/// Relies on `http::StatusCode::UNAUTHORIZED`, whose numeric value is 401.
#[verifier::external_body]
fn unauthorized_status() -> (r: u16)
    ensures
        r == 401,
{
    http::StatusCode::UNAUTHORIZED.as_u16()
}

/// Relies on `http::StatusCode::NOT_FOUND`, whose numeric value is 404.
#[verifier::external_body]
fn not_found_status() -> (r: u16)
    ensures
        r == 404,
{
    http::StatusCode::NOT_FOUND.as_u16()
}

/// Relies on `http::StatusCode::BAD_REQUEST`, whose numeric value is 400.
#[verifier::external_body]
fn bad_request_status() -> (r: u16)
    ensures
        r == 400,
{
    http::StatusCode::BAD_REQUEST.as_u16()
}

/// Relies on `http::StatusCode::INTERNAL_SERVER_ERROR`, whose numeric value is 500.
#[verifier::external_body]
fn internal_status() -> (r: u16)
    ensures
        r == 500,
{
    http::StatusCode::INTERNAL_SERVER_ERROR.as_u16()
}

/// The actor could not be resolved, or its role lacks the permission.
#[derive(Debug)]
pub struct UnauthorizedError {
    code: u16,
    message: String,
}

impl UnauthorizedError {
    #[verifier::type_invariant]
    spec fn inv(&self) -> bool {
        self.code == 401 && self.message@ == "Unauthorized."@
    }

    /// The numeric code carried.
    pub closed spec fn status(&self) -> u16 {
        self.code
    }

    /// The message carried.
    pub closed spec fn text(&self) -> Seq<char> {
        self.message@
    }

    pub fn new() -> (r: Self)
        ensures
            r.status() == 401,
            r.text() == "Unauthorized."@,
    {
        UnauthorizedError { code: unauthorized_status(), message: "Unauthorized.".to_owned() }
    }

    pub fn code(&self) -> (r: &u16)
        ensures
            *r == 401,
    {
        proof {
            use_type_invariant(self);
        }
        &self.code
    }

    pub fn message(&self) -> (r: &String)
        ensures
            r@ == "Unauthorized."@,
    {
        proof {
            use_type_invariant(self);
        }
        &self.message
    }
}

/// An entity that a read or an update needs is absent.
#[derive(Debug)]
pub struct ResourceNotFoundError {
    code: u16,
    message: String,
}

impl ResourceNotFoundError {
    #[verifier::type_invariant]
    spec fn inv(&self) -> bool {
        self.code == 404 && self.message@ == "Resource not found."@
    }

    /// The numeric code carried.
    pub closed spec fn status(&self) -> u16 {
        self.code
    }

    /// The message carried.
    pub closed spec fn text(&self) -> Seq<char> {
        self.message@
    }

    pub fn new() -> (r: Self)
        ensures
            r.status() == 404,
            r.text() == "Resource not found."@,
    {
        ResourceNotFoundError { code: not_found_status(), message: "Resource not found.".to_owned() }
    }

    pub fn code(&self) -> (r: &u16)
        ensures
            *r == 404,
    {
        proof {
            use_type_invariant(self);
        }
        &self.code
    }

    pub fn message(&self) -> (r: &String)
        ensures
            r@ == "Resource not found."@,
    {
        proof {
            use_type_invariant(self);
        }
        &self.message
    }
}

/// The request names an entity that a deletion of this kind requires to exist.
#[derive(Debug)]
pub struct BadRequestError {
    code: u16,
    message: String,
}

impl BadRequestError {
    #[verifier::type_invariant]
    spec fn inv(&self) -> bool {
        self.code == 400 && self.message@ == "Bad request."@
    }

    /// The numeric code carried.
    pub closed spec fn status(&self) -> u16 {
        self.code
    }

    /// The message carried.
    pub closed spec fn text(&self) -> Seq<char> {
        self.message@
    }

    pub fn new() -> (r: Self)
        ensures
            r.status() == 400,
            r.text() == "Bad request."@,
    {
        BadRequestError { code: bad_request_status(), message: "Bad request.".to_owned() }
    }

    pub fn code(&self) -> (r: &u16)
        ensures
            *r == 400,
    {
        proof {
            use_type_invariant(self);
        }
        &self.code
    }

    pub fn message(&self) -> (r: &String)
        ensures
            r@ == "Bad request."@,
    {
        proof {
            use_type_invariant(self);
        }
        &self.message
    }
}

/// The storage layer failed; the cause is not exposed to the caller.
#[derive(Debug)]
pub struct InternalError {
    code: u16,
    message: String,
}

impl InternalError {
    #[verifier::type_invariant]
    spec fn inv(&self) -> bool {
        self.code == 500 && self.message@ == "Internal server error."@
    }

    /// The numeric code carried.
    pub closed spec fn status(&self) -> u16 {
        self.code
    }

    /// The message carried.
    pub closed spec fn text(&self) -> Seq<char> {
        self.message@
    }

    pub fn new() -> (r: Self)
        ensures
            r.status() == 500,
            r.text() == "Internal server error."@,
    {
        InternalError { code: internal_status(), message: "Internal server error.".to_owned() }
    }

    pub fn code(&self) -> (r: &u16)
        ensures
            *r == 500,
    {
        proof {
            use_type_invariant(self);
        }
        &self.code
    }

    pub fn message(&self) -> (r: &String)
        ensures
            r@ == "Internal server error."@,
    {
        proof {
            use_type_invariant(self);
        }
        &self.message
    }
}

/// Any failure that leaves a use case.
#[derive(Debug)]
pub enum DomainError {
    Unauthorized(UnauthorizedError),
    ResourceNotFound(ResourceNotFoundError),
    BadRequest(BadRequestError),
    Internal(InternalError),
}

impl DomainError {
    /// The stable numeric code of each kind.
    pub open spec fn status(self) -> u16 {
        match self {
            DomainError::Unauthorized(_) => 401,
            DomainError::ResourceNotFound(_) => 404,
            DomainError::BadRequest(_) => 400,
            DomainError::Internal(_) => 500,
        }
    }

    /// The fixed message of each kind.
    pub open spec fn text(self) -> Seq<char> {
        match self {
            DomainError::Unauthorized(_) => "Unauthorized."@,
            DomainError::ResourceNotFound(_) => "Resource not found."@,
            DomainError::BadRequest(_) => "Bad request."@,
            DomainError::Internal(_) => "Internal server error."@,
        }
    }

    pub fn unauthorized() -> (r: Self)
        ensures
            r is Unauthorized,
    {
        DomainError::Unauthorized(UnauthorizedError::new())
    }

    pub fn not_found() -> (r: Self)
        ensures
            r is ResourceNotFound,
    {
        DomainError::ResourceNotFound(ResourceNotFoundError::new())
    }

    pub fn bad_request() -> (r: Self)
        ensures
            r is BadRequest,
    {
        DomainError::BadRequest(BadRequestError::new())
    }

    pub fn internal() -> (r: Self)
        ensures
            r is Internal,
    {
        DomainError::Internal(InternalError::new())
    }

    pub fn code(&self) -> (r: u16)
        ensures
            r == self.status(),
    {
        match self {
            DomainError::Unauthorized(e) => *e.code(),
            DomainError::ResourceNotFound(e) => *e.code(),
            DomainError::BadRequest(e) => *e.code(),
            DomainError::Internal(e) => *e.code(),
        }
    }

    pub fn message(&self) -> (r: String)
        ensures
            r@ == self.text(),
    {
        match self {
            DomainError::Unauthorized(e) => e.message().clone(),
            DomainError::ResourceNotFound(e) => e.message().clone(),
            DomainError::BadRequest(e) => e.message().clone(),
            DomainError::Internal(e) => e.message().clone(),
        }
    }
}

/// A failure reported by a storage adapter, with its detail.
#[derive(Debug)]
pub struct StorageError {
    pub detail: String,
}

/// Converts a storage failure met while running a use case into the generic
/// internal error. The operation's context and the failure's detail are
/// discarded: neither reaches the caller, and nothing here keeps them.
pub fn generate_service_internal_error(_message: &str, _error: &StorageError) -> (r: DomainError)
    ensures
        r is Internal,
{
    DomainError::internal()
}

} // verus!
