//! The two route handlers, as decision logic over the outcomes of the
//! database round trips. The creation handler runs a two-step,
//! non-transactional protocol: an unfiltered existence probe, then a
//! conditional insert. Whoever drives the handler performs the actual
//! database calls and feeds each outcome back in as a plain `bool`;
//! every decision in between is made — and proved — here.

use vstd::prelude::*;

use crate::model::{CreateUser, NewUserRow, Response, Status, User, API_USER_ID, ROW_USER_ID};

verus! {

/// What to do once the existence probe has answered.
pub enum ProbeStep {
    /// Some row already exists (any row at all — the probe does not filter
    /// by username): answer at once, and attempt no insert.
    Respond(Response),
    /// No row was seen (none exists, or the probe errored — the two are
    /// deliberately not distinguished): attempt to insert exactly this row.
    Insert(NewUserRow),
}

/// The decision taken after the probe, as a function of the request and of
/// whether the probe returned a row.
pub open spec fn probe_decision_spec(payload: CreateUser, row_found: bool) -> ProbeStep {
    if row_found {
        ProbeStep::Respond(Response {
            status: Status::Conflict,
            body: User { id: API_USER_ID, username: payload.username },
        })
    } else {
        ProbeStep::Insert(NewUserRow {
            row_id: ROW_USER_ID,
            username: payload.username,
            password: payload.password,
        })
    }
}

/// The response composed after an insert attempt, as a function of the row
/// that was handed to the insert and of whether the insert succeeded.
pub open spec fn insert_response_spec(row: NewUserRow, insert_ok: bool) -> Response {
    Response {
        status: if insert_ok { Status::Created } else { Status::BadRequest },
        body: User { id: API_USER_ID, username: row.username },
    }
}

/// The full per-request transcript of the creation handler: probe, then —
/// only when the probe saw nothing — insert. `insert_ok` is consulted only
/// on that second path, since no insert is attempted on the first.
pub open spec fn handler_response_spec(
    payload: CreateUser,
    row_found: bool,
    insert_ok: bool,
) -> Response {
    match probe_decision_spec(payload, row_found) {
        ProbeStep::Respond(r) => r,
        ProbeStep::Insert(row) => insert_response_spec(row, insert_ok),
    }
}

/// How many rows one request adds to the table.
pub open spec fn rows_inserted_spec(row_found: bool, insert_ok: bool) -> nat {
    if !row_found && insert_ok {
        1
    } else {
        0
    }
}

/// Status of the liveness endpoint: always 200, independent of anything,
/// the database's state included.
pub fn root_status() -> (c: u16)
    ensures
        c == 200,
{
    200
}

/// Body of the liveness endpoint: always the same fixed text, with no
/// input consumed, no side effect and no failure mode.
pub fn root_body() -> (s: &'static str)
    ensures
        s@ == "Hello, World!"@,
{
    "Hello, World!"
}

/// First step of the creation handler: decide from the probe's outcome
/// whether to answer Conflict now or to go on to the insert.
///
/// `row_found` is whether the unfiltered single-row read returned a row;
/// a probe error counts as "no row", exactly like true absence.
pub fn after_probe(payload: CreateUser, row_found: bool) -> (d: ProbeStep)
    ensures
        d == probe_decision_spec(payload, row_found),
{
    if row_found {
        ProbeStep::Respond(Response {
            status: Status::Conflict,
            body: User { id: API_USER_ID, username: payload.username },
        })
    } else {
        ProbeStep::Insert(NewUserRow {
            row_id: ROW_USER_ID,
            username: payload.username,
            password: payload.password,
        })
    }
}

/// Second step of the creation handler: compose the response from the
/// insert's outcome. Success and failure share one body shape; only the
/// status differs, and no error detail crosses this boundary.
pub fn after_insert(row: NewUserRow, insert_ok: bool) -> (r: Response)
    ensures
        r == insert_response_spec(row, insert_ok),
{
    Response {
        status: if insert_ok { Status::Created } else { Status::BadRequest },
        body: User { id: API_USER_ID, username: row.username },
    }
}

/// Law: for every valid input, when the table is empty (the probe sees no
/// row) and the insert succeeds, the response is 201 Created with the
/// fixed id and the request's username, and exactly one row is added —
/// one carrying the fixed row id and the request's username and password
/// verbatim.
pub proof fn lemma_created_on_empty_table(payload: CreateUser)
    ensures
        handler_response_spec(payload, false, true).status == Status::Created,
        handler_response_spec(payload, false, true).status.code_spec() == 201,
        handler_response_spec(payload, false, true).body.id == API_USER_ID,
        handler_response_spec(payload, false, true).body.username == payload.username,
        probe_decision_spec(payload, false) matches ProbeStep::Insert(row) && row
            == (NewUserRow {
            row_id: ROW_USER_ID,
            username: payload.username,
            password: payload.password,
        }),
        rows_inserted_spec(false, true) == 1,
{
}

/// Law: for every valid input, when the table already holds at least one
/// row — any row, regardless of username — the response is 409 Conflict
/// with the fixed id and the *incoming* username (not the row actually
/// found), and no insert is attempted, whatever an insert would have done.
pub proof fn lemma_conflict_when_any_row_exists(payload: CreateUser, insert_ok: bool)
    ensures
        handler_response_spec(payload, true, insert_ok).status == Status::Conflict,
        handler_response_spec(payload, true, insert_ok).status.code_spec() == 409,
        handler_response_spec(payload, true, insert_ok).body.id == API_USER_ID,
        handler_response_spec(payload, true, insert_ok).body.username == payload.username,
        probe_decision_spec(payload, true) is Respond,
        rows_inserted_spec(true, insert_ok) == 0,
{
}

/// Law: when the probe saw nothing but the insert fails — for any reason;
/// kinds of failure are not distinguished — the response is 400 Bad
/// Request with a body of exactly the same shape and content as the
/// success case, and no row is added.
pub proof fn lemma_bad_request_on_insert_failure(payload: CreateUser)
    ensures
        handler_response_spec(payload, false, false).status == Status::BadRequest,
        handler_response_spec(payload, false, false).status.code_spec() == 400,
        handler_response_spec(payload, false, false).body == handler_response_spec(
            payload,
            false,
            true,
        ).body,
        handler_response_spec(payload, false, false).body.id == API_USER_ID,
        handler_response_spec(payload, false, false).body.username == payload.username,
        rows_inserted_spec(false, false) == 0,
{
}

/// Law: in every branch the response body echoes the request's username
/// verbatim and carries the fixed id. Together with the shape of `User`,
/// which has no password field, no branch can return a password.
pub proof fn lemma_username_round_trip(payload: CreateUser, row_found: bool, insert_ok: bool)
    ensures
        handler_response_spec(payload, row_found, insert_ok).body.username == payload.username,
        handler_response_spec(payload, row_found, insert_ok).body.id == API_USER_ID,
{
}

/// Law: the probe/insert pair is not wrapped in a transaction, so two
/// concurrent requests may both probe the table before either insert
/// lands. Both then see no row, both decide to insert, and when both
/// inserts succeed both requests answer 201 Created — two rows in all.
/// This race is accepted behavior of the unguarded check-then-act
/// sequence, not a fault of either single request.
pub proof fn lemma_concurrent_creates_both_succeed(first: CreateUser, second: CreateUser)
    ensures
        probe_decision_spec(first, false) is Insert,
        probe_decision_spec(second, false) is Insert,
        handler_response_spec(first, false, true).status == Status::Created,
        handler_response_spec(second, false, true).status == Status::Created,
        rows_inserted_spec(false, true) + rows_inserted_spec(false, true) == 2,
{
}

} // verus!

