use user_service::handler::{after_insert, after_probe, root_body, root_status, ProbeStep};
use user_service::model::{CreateUser, NewUserRow, Status};

fn payload(username: &str, password: &str) -> CreateUser {
    CreateUser { username: username.to_string(), password: password.to_string() }
}

#[test]
fn root_is_200_hello_world() {
    assert_eq!(root_status(), 200);
    assert_eq!(root_body(), "Hello, World!");
}

#[test]
fn status_codes_match_http() {
    assert_eq!(Status::Created.code(), 201);
    assert_eq!(Status::Conflict.code(), 409);
    assert_eq!(Status::BadRequest.code(), 400);
}

#[test]
fn empty_table_insert_succeeds_201() {
    let d = after_probe(payload("alice", "secret"), false);
    match d {
        ProbeStep::Insert(row) => {
            assert_eq!(row.row_id, 1337);
            assert_eq!(row.username, "alice");
            assert_eq!(row.password, "secret");
            let r = after_insert(row, true);
            assert_eq!(r.status, Status::Created);
            assert_eq!(r.status.code(), 201);
            assert_eq!(r.body.id, 1337);
            assert_eq!(r.body.username, "alice");
        }
        ProbeStep::Respond(_) => panic!("empty table must lead to an insert"),
    }
}

#[test]
fn occupied_table_conflicts_409_with_incoming_username() {
    // The probe does not filter by username: any existing row at all
    // blocks the insert, and the body echoes the incoming name.
    let d = after_probe(payload("bob", "pw"), true);
    match d {
        ProbeStep::Respond(r) => {
            assert_eq!(r.status, Status::Conflict);
            assert_eq!(r.status.code(), 409);
            assert_eq!(r.body.id, 1337);
            assert_eq!(r.body.username, "bob");
        }
        ProbeStep::Insert(_) => panic!("an occupied table must not lead to an insert"),
    }
}

#[test]
fn failed_insert_answers_400_with_same_body_shape() {
    let row = NewUserRow { row_id: 1337, username: "carol".to_string(), password: "pw".to_string() };
    let r = after_insert(row, false);
    assert_eq!(r.status, Status::BadRequest);
    assert_eq!(r.status.code(), 400);
    assert_eq!(r.body.id, 1337);
    assert_eq!(r.body.username, "carol");
}

#[test]
fn two_concurrent_creates_may_both_succeed() {
    // Both requests probe before either insert lands: both see no row,
    // both insert, both answer 201. Accepted check-then-act behavior.
    let first = after_probe(payload("dora", "pw-one"), false);
    let second = after_probe(payload("emil", "pw-two"), false);
    match (first, second) {
        (ProbeStep::Insert(row1), ProbeStep::Insert(row2)) => {
            let r1 = after_insert(row1, true);
            let r2 = after_insert(row2, true);
            assert_eq!(r1.status.code(), 201);
            assert_eq!(r2.status.code(), 201);
        }
        _ => panic!("both probes of the empty table must lead to inserts"),
    }
}

#[test]
fn username_round_trips_verbatim_in_both_branches() {
    let name = "Weird NAME with spaces \u{00e9}";
    match after_probe(payload(name, "pw"), true) {
        ProbeStep::Respond(r) => assert_eq!(r.body.username, name),
        ProbeStep::Insert(_) => panic!("probe found a row, so the answer must be immediate"),
    }
    match after_probe(payload(name, "pw"), false) {
        ProbeStep::Insert(row) => {
            assert_eq!(after_insert(row, true).body.username, name);
        }
        ProbeStep::Respond(_) => panic!("no row found, so an insert must follow"),
    }
}
