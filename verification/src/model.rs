use vstd::prelude::*;

verus! {

/// Fixed numeric identifier carried in every response body, regardless of
/// how many users exist or what key the database assigns: the service
/// never reads the generated key back. Observed behavior, preserved as-is.
pub const API_USER_ID: u64 = 1337;

/// The same fixed value, as it is cast into the integer column that sits
/// beside the generated key in the persisted row.
pub const ROW_USER_ID: i32 = 1337;

/// Input shape of the user-creation endpoint. Both fields are required;
/// the password is accepted and stored as given (unhashed — a known
/// weakness kept for fidelity) and is never echoed back.
#[derive(Clone, Debug)]
pub struct CreateUser {
    pub username: String,
    pub password: String,
}

/// Output shape of the user-creation endpoint. There is no password field,
/// so no branch of the handler can return one.
#[derive(Clone, Debug)]
pub struct User {
    pub id: u64,
    pub username: String,
}

/// The three statuses the creation path can answer with. The liveness
/// endpoint always answers 200; see `handler::root_status`.
#[derive(Clone, Copy, Debug, PartialEq, Eq, Structural)]
pub enum Status {
    Created,
    Conflict,
    BadRequest,
}

impl Status {
    /// Numeric HTTP status code of this status.
    pub open spec fn code_spec(self) -> u16 {
        match self {
            Status::Created => 201,
            Status::Conflict => 409,
            Status::BadRequest => 400,
        }
    }

    /// Returns the numeric HTTP status code to put on the wire.
    pub fn code(self) -> (c: u16)
        ensures
            c == self.code_spec(),
    {
        match self {
            Status::Created => 201,
            Status::Conflict => 409,
            Status::BadRequest => 400,
        }
    }
}

/// A complete answer of the creation path: a status and a `User` body.
/// The body shape is identical across all three branches; only the status
/// distinguishes them.
#[derive(Clone, Debug)]
pub struct Response {
    pub status: Status,
    pub body: User,
}

/// The values the handler itself chooses for the insert statement.
/// The generated 128-bit key and the `created_at` timestamp are drawn at
/// the moment of the insert call by whoever performs it, not decided here.
#[derive(Clone, Debug)]
pub struct NewUserRow {
    pub row_id: i32,
    pub username: String,
    pub password: String,
}

} // verus!
