use todo_backend::error::BackendError;
use todo_backend::dispatch::{advance, begin, parse_flag_text, Fields, Outcome, Query, Request, Step};
use todo_backend::pool::{after_attempt, pool_settings, Next, MAX_RETRIES, RETRY_DELAY_SECS};
use todo_backend::reply::{Body, Failure, Reply};
use todo_backend::store::MemStore;
use todo_backend::todo::{is_blank, same_text, Todo};

fn fields(name: Option<&str>, description: Option<&str>, done: Option<&str>) -> Fields {
    Fields {
        name: name.map(|s| s.to_string()),
        description: description.map(|s| s.to_string()),
        done: done.map(|s| s.to_string()),
    }
}

fn create(name: &str, description: &str) -> Request {
    Request::Create(Some(fields(Some(name), Some(description), None)))
}

fn one(r: &Reply) -> &Todo {
    match &r.body {
        Body::One(t) => t,
        _ => panic!("expected one todo"),
    }
}

fn failure(r: &Reply) -> &Failure {
    match &r.body {
        Body::Failed(f) => f,
        _ => panic!("expected a failure"),
    }
}

#[test]
fn buy_milk_scenario() {
    let mut store = MemStore::new();
    let r = store.handle(&create("buy milk", "2%"));
    assert_eq!(r.status, 201);
    assert!(r.success());
    assert_eq!(r.data_key(), "todo");
    let t = one(&r);
    assert_eq!(t.id, 1);
    assert_eq!(t.name, "buy milk");
    assert_eq!(t.description, "2%");
    assert!(!t.done);

    let r = store.handle(&Request::List);
    assert_eq!(r.status, 200);
    assert_eq!(r.data_key(), "todos");
    match &r.body {
        Body::Many(v) => {
            assert_eq!(v.len(), 1);
            assert_eq!(v[0].id, 1);
            assert_eq!(v[0].name, "buy milk");
        }
        _ => panic!("expected a list"),
    }

    let r = store.handle(&Request::MarkDone(Some(1)));
    assert_eq!(r.status, 200);
    assert!(one(&r).done);

    let r = store.handle(&Request::Delete(Some(1)));
    assert_eq!(r.status, 200);
    assert_eq!(r.data_key(), "message");
    assert_eq!(r.message(), "Todo with id 1 successfully deleted");

    let r = store.handle(&Request::GetById(Some(1)));
    assert_eq!(r.status, 404);
    assert!(!r.success());
    assert_eq!(r.data_key(), "error");
    assert_eq!(r.message(), "Todo with id '1' not found");
}

#[test]
fn create_then_find_by_name() {
    let mut store = MemStore::new();
    store.handle(&create("first", "a"));
    let r = store.handle(&create("second", ""));
    assert_eq!(one(&r).id, 2);
    let r = store.handle(&Request::GetByName(Some("second".to_string())));
    assert_eq!(r.status, 200);
    let t = one(&r);
    assert_eq!(t.id, 2);
    assert_eq!(t.description, "");
    assert!(!t.done);
}

#[test]
fn duplicate_name_is_a_conflict() {
    let mut store = MemStore::new();
    store.handle(&create("walk", "dog"));
    let r = store.handle(&create("walk", "cat"));
    assert_eq!(r.status, 409);
    assert_eq!(r.message(), "Todo with that name already exists");
    let r = store.handle(&Request::List);
    match &r.body {
        Body::Many(v) => {
            assert_eq!(v.len(), 1);
            assert_eq!(v[0].description, "dog");
        }
        _ => panic!("expected a list"),
    }
}

#[test]
fn mark_done_twice() {
    let mut store = MemStore::new();
    store.handle(&create("x", "y"));
    let a = store.handle(&Request::MarkDone(Some(1)));
    let b = store.handle(&Request::MarkDone(Some(1)));
    assert_eq!(a.status, 200);
    assert_eq!(b.status, 200);
    assert!(one(&a).done);
    assert!(one(&b).done);
}

#[test]
fn update_missing_id_writes_nothing() {
    let mut store = MemStore::new();
    store.handle(&create("x", "y"));
    let r = store.handle(&Request::Update(Some(7), Some(fields(Some("z"), Some("w"), Some("true")))));
    assert_eq!(r.status, 404);
    assert_eq!(r.message(), "Todo with id 7 does not exist");
    let r = store.handle(&Request::GetById(Some(1)));
    assert_eq!(one(&r).name, "x");
    assert!(!one(&r).done);
}

#[test]
fn update_overwrites_fields() {
    let mut store = MemStore::new();
    store.handle(&create("x", "y"));
    let r = store.handle(&Request::Update(Some(1), Some(fields(Some("z"), Some("w"), Some("true")))));
    assert_eq!(r.status, 200);
    let t = one(&r);
    assert_eq!((t.id, t.name.as_str(), t.description.as_str(), t.done), (1, "z", "w", true));
}

#[test]
fn update_onto_taken_name_is_a_store_error() {
    let mut store = MemStore::new();
    store.handle(&create("a", ""));
    store.handle(&create("b", ""));
    let r = store.handle(&Request::Update(Some(2), Some(fields(Some("a"), Some(""), Some("false")))));
    assert_eq!(r.status, 500);
    assert!(r.message().starts_with("Database error: "));
}

#[test]
fn validation_failures() {
    let mut store = MemStore::new();
    let cases: Vec<(Request, u16, &str)> = vec![
        (Request::GetById(None), 400, "Missing 'id' query parameter"),
        (Request::MarkDone(None), 400, "Missing 'id' query parameter"),
        (Request::Delete(None), 400, "Missing 'id' query parameter"),
        (Request::Create(None), 400, "Invalid JSON payload"),
        (Request::Create(Some(fields(None, Some("d"), None))), 400, "Missing or empty 'name' field"),
        (Request::Create(Some(fields(Some(" \t "), Some("d"), None))), 400, "Missing or empty 'name' field"),
        (Request::Create(Some(fields(Some("n"), None, None))), 400, "Missing 'description' field"),
        (Request::Update(Some(1), Some(fields(Some("n"), Some("d"), Some("yes")))), 400, "Missing or invalid 'done' field"),
        (Request::Update(Some(1), Some(fields(Some("n"), Some("d"), None))), 400, "Missing or invalid 'done' field"),
        (Request::Update(None, Some(fields(Some("n"), Some("d"), Some("true")))), 400, "Missing 'id' query parameter"),
        (Request::GetByName(Some("".to_string())), 400, "Missing or empty 'name' field"),
    ];
    for (req, status, msg) in cases {
        let r = store.handle(&req);
        assert_eq!(r.status, status);
        assert_eq!(r.message(), msg);
    }
}

#[test]
fn not_found_errors() {
    let mut store = MemStore::new();
    let r = store.handle(&Request::MarkDone(Some(3)));
    assert_eq!(r.status, 404);
    assert_eq!(r.message(), "Todo with id 3 does not exist");
    let r = store.handle(&Request::GetById(Some(-8)));
    assert_eq!(r.status, 404);
    assert_eq!(r.message(), "Todo with id '-8' not found");
    assert_eq!(store.handle(&Request::Delete(Some(-3))).message(), "Todo with id -3 does not exist");
    let r = store.handle(&Request::GetByName(Some("nope".to_string())));
    assert_eq!(r.status, 404);
    assert_eq!(r.message(), "Todo with name 'nope' not found");
}

#[test]
fn ids_are_not_reused() {
    let mut store = MemStore::new();
    store.handle(&create("a", ""));
    store.handle(&Request::Delete(Some(1)));
    let r = store.handle(&create("a", ""));
    assert_eq!(one(&r).id, 2);
}

#[test]
fn steps_of_a_delete() {
    let req = Request::Delete(Some(5));
    let q = match begin(&req) {
        Step::Run(q) => q,
        Step::Reply(_) => panic!("expected a statement"),
    };
    assert!(matches!(q, Query::IdExists(5)));
    let q = match advance(&req, &q, Outcome::Present(true)) {
        Step::Run(q) => q,
        Step::Reply(_) => panic!("expected a statement"),
    };
    assert!(matches!(q, Query::DeleteById(5)));
    match advance(&req, &q, Outcome::Affected(0)) {
        Step::Reply(r) => assert_eq!(r.status, 404),
        Step::Run(_) => panic!("expected a reply"),
    }
    match advance(&req, &q, Outcome::Affected(2)) {
        Step::Reply(r) => {
            assert_eq!(r.status, 500);
            assert_eq!(r.message(), "Todo was not deleted due to an unknown error");
        }
        Step::Run(_) => panic!("expected a reply"),
    }
    match advance(&req, &q, Outcome::Failed("connection reset".to_string())) {
        Step::Reply(r) => {
            assert_eq!(r.status, 500);
            assert_eq!(r.message(), "Database error: connection reset");
        }
        Step::Run(_) => panic!("expected a reply"),
    }
}

#[test]
fn store_failure_during_precheck() {
    let req = create("a", "b");
    let q = match begin(&req) {
        Step::Run(q) => q,
        Step::Reply(_) => panic!("expected a statement"),
    };
    match advance(&req, &q, Outcome::Failed("timeout".to_string())) {
        Step::Reply(r) => assert_eq!(r.status, 500),
        Step::Run(_) => panic!("expected a reply"),
    }
}

#[test]
fn failure_status_codes() {
    assert_eq!(Failure::MissingId.status(), 400);
    assert_eq!(Failure::IdNotFound(1).status(), 404);
    assert_eq!(Failure::NameTaken.status(), 409);
    assert_eq!(Failure::Store("x".to_string()).status(), 500);
}

#[test]
fn pool_retry_decisions() {
    assert_eq!(after_attempt(0, true), Next::Ready);
    assert_eq!(after_attempt(0, false), Next::RetryAfter(3));
    assert_eq!(after_attempt(4, false), Next::RetryAfter(RETRY_DELAY_SECS));
    assert_eq!(after_attempt(MAX_RETRIES, false), Next::GiveUp);
    assert_eq!(after_attempt(MAX_RETRIES, true), Next::Ready);
}

#[test]
fn unreachable_twice_then_reachable() {
    let reachable = [false, false, true];
    let mut delays = 0;
    let mut attempt: u32 = 0;
    let ready = loop {
        match after_attempt(attempt, reachable.get(attempt as usize).copied().unwrap_or(false)) {
            Next::Ready => break true,
            Next::GiveUp => break false,
            Next::RetryAfter(_) => {
                delays += 1;
                attempt += 1;
            }
        }
    };
    assert!(ready);
    assert_eq!(delays, 2);
}

#[test]
fn never_reachable_gives_up_after_six_attempts() {
    let mut attempt: u32 = 0;
    loop {
        match after_attempt(attempt, false) {
            Next::GiveUp => break,
            Next::Ready => panic!("cannot connect"),
            Next::RetryAfter(_) => attempt += 1,
        }
    }
    assert_eq!(attempt + 1, 6);
}

#[test]
fn pool_bounds() {
    let s = pool_settings();
    assert_eq!((s.min_connections, s.max_connections), (2, 6));
    assert_eq!((s.idle_timeout_secs, s.acquire_timeout_secs), (60, 30));
}

#[test]
fn text_helpers() {
    assert!(is_blank(""));
    assert!(is_blank(" \n\u{3000}"));
    assert!(!is_blank(" a "));
    assert!(same_text("héllo", "héllo"));
    assert!(!same_text("ab", "abc"));
    assert_eq!(parse_flag_text("true"), Some(true));
    assert_eq!(parse_flag_text("false"), Some(false));
    assert_eq!(parse_flag_text("True"), None);
}

#[test]
fn startup_error_texts() {
    let e = BackendError::EnvError("missing".to_string());
    assert_eq!(e.message(), "Environment variable error: missing");
    assert_eq!(e.status(), 500);
    assert_eq!(BackendError::SqlxError("refused".to_string()).message(), "Sqlx error: refused");
}

#[test]
fn id_texts_at_the_edges() {
    let mut store = MemStore::new();
    assert_eq!(store.handle(&Request::GetById(Some(0))).message(), "Todo with id '0' not found");
    assert_eq!(
        store.handle(&Request::GetById(Some(i32::MIN))).message(),
        "Todo with id '-2147483648' not found"
    );
    assert_eq!(
        store.handle(&Request::Delete(Some(i32::MAX))).message(),
        "Todo with id 2147483647 does not exist"
    );
    assert_eq!(store.handle(&Request::MarkDone(Some(1090))).message(), "Todo with id 1090 does not exist");
}
