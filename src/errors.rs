//! The closed set of failures the service reports, and how each is rendered.
use vstd::prelude::*;

verus! {

/// Every failure of the service, as seen by a client.
#[derive(Debug, Clone, Copy, PartialEq, Eq, Structural)]
pub enum ServiceError {
    CharError,
    UsernameExists,
    AuthorizationRequired,
    InternalServerError,
    Timeout,
    BadRequest,
    UnableToConnectToDb,
    PoWRequired,
}

/// A fault reported by the storage layer, before translation.
#[derive(Debug, Clone, Copy, PartialEq, Eq, Structural)]
pub enum StoreError {
    /// The insert broke the uniqueness constraint on usernames.
    UniqueViolation,
    /// The store could not be reached.
    Unavailable,
    /// Any other fault of the store.
    Other,
}

pub type ServiceResult<V> = Result<V, ServiceError>;

/// The HTTP status that answers each error.
pub open spec fn status_of(e: ServiceError) -> u16 {
    match e {
        ServiceError::CharError => 405,
        ServiceError::UsernameExists => 405,
        ServiceError::AuthorizationRequired => 401,
        ServiceError::InternalServerError => 500,
        ServiceError::Timeout => 504,
        ServiceError::BadRequest => 400,
        ServiceError::UnableToConnectToDb => 500,
        ServiceError::PoWRequired => 402,
    }
}

/// The display text of each error.
pub open spec fn message_of(e: ServiceError) -> Seq<char> {
    match e {
        ServiceError::CharError => "some characters are not permitted"@,
        ServiceError::UsernameExists => "username exists"@,
        ServiceError::AuthorizationRequired => "invalid credentials"@,
        ServiceError::InternalServerError => "internal error"@,
        ServiceError::Timeout => "timeout"@,
        ServiceError::BadRequest => "bad request"@,
        ServiceError::UnableToConnectToDb => "Unable to connect to DB"@,
        ServiceError::PoWRequired => "PoW required, request not processed"@,
    }
}

/// The JSON body of an error response: `{"error":"<message>"}`.
pub open spec fn body_of(e: ServiceError) -> Seq<char> {
    "{\"error\":\""@ + message_of(e) + "\"}"@
}

/// How a storage fault surfaces to clients.
pub open spec fn translated(e: StoreError) -> ServiceError {
    match e {
        StoreError::UniqueViolation => ServiceError::UsernameExists,
        StoreError::Unavailable => ServiceError::UnableToConnectToDb,
        StoreError::Other => ServiceError::InternalServerError,
    }
}

impl ServiceError {
    pub fn status_code(&self) -> (r: u16)
        ensures
            r == status_of(*self),
    {
        match *self {
            ServiceError::CharError => 405,
            ServiceError::UsernameExists => 405,
            ServiceError::AuthorizationRequired => 401,
            ServiceError::InternalServerError => 500,
            ServiceError::Timeout => 504,
            ServiceError::BadRequest => 400,
            ServiceError::UnableToConnectToDb => 500,
            ServiceError::PoWRequired => 402,
        }
    }

    pub fn message(&self) -> (r: &'static str)
        ensures
            r@ == message_of(*self),
    {
        match *self {
            ServiceError::CharError => "some characters are not permitted",
            ServiceError::UsernameExists => "username exists",
            ServiceError::AuthorizationRequired => "invalid credentials",
            ServiceError::InternalServerError => "internal error",
            ServiceError::Timeout => "timeout",
            ServiceError::BadRequest => "bad request",
            ServiceError::UnableToConnectToDb => "Unable to connect to DB",
            ServiceError::PoWRequired => "PoW required, request not processed",
        }
    }

    /// The text shown for this error.
    pub fn to_string(&self) -> (r: String)
        ensures
            r@ == message_of(*self),
    {
        String::from_str(self.message())
    }

    /// The JSON body sent with this error.
    pub fn error_response(&self) -> (r: String)
        ensures
            r@ == body_of(*self),
    {
        let head = String::from_str("{\"error\":\"");
        let with_msg = head.concat(self.message());
        with_msg.concat("\"}")
    }

    /// Translates a storage fault, once, at the store's boundary.
    pub fn from_store(e: StoreError) -> (r: ServiceError)
        ensures
            r == translated(e),
    {
        match e {
            StoreError::UniqueViolation => ServiceError::UsernameExists,
            StoreError::Unavailable => ServiceError::UnableToConnectToDb,
            StoreError::Other => ServiceError::InternalServerError,
        }
    }
}

} // verus!
