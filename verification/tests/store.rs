use posts_service::model::Post;
use posts_service::store::{Store, StoreFault};

fn post(id: i32, title: &str, body: &str) -> Post {
    Post { id, title: String::from(title), body: String::from(body) }
}

#[test]
fn store_opens_empty_and_online() {
    let store = Store::open("postgres://localhost/posts");
    assert!(store.is_online());
    assert_eq!(store.url(), "postgres://localhost/posts");
    assert_eq!(store.select_all(), Ok(Vec::new()));
}

#[test]
fn store_assigns_ids_from_one_upwards() {
    let mut store = Store::open("db");
    assert_eq!(store.insert("first", "a"), Ok(1));
    assert_eq!(store.insert("second", "b"), Ok(2));
    assert_eq!(store.insert("third", ""), Ok(3));
    assert_eq!(
        store.select_all(),
        Ok(vec![post(1, "first", "a"), post(2, "second", "b"), post(3, "third", "")])
    );
}

#[test]
fn store_refuses_an_empty_title() {
    let mut store = Store::open("db");
    assert_eq!(
        store.insert("", "body"),
        Err(StoreFault::Constraint(String::from("title must not be empty")))
    );
    assert_eq!(store.select_all(), Ok(Vec::new()));
    assert_eq!(store.insert("title", "body"), Ok(1));
}

#[test]
fn store_offline_answers_unreachable_and_keeps_its_rows() {
    let mut store = Store::open("db");
    assert_eq!(store.insert("kept", "row"), Ok(1));
    store.disconnect();
    assert!(!store.is_online());
    assert_eq!(store.insert("lost", "row"), Err(StoreFault::Unreachable));
    assert_eq!(store.insert("", "row"), Err(StoreFault::Unreachable));
    assert_eq!(store.select_all(), Err(StoreFault::Unreachable));
    assert_eq!(store.select_by_id(1), Err(StoreFault::Unreachable));
    assert_eq!(store.select_by_id(2), Err(StoreFault::Unreachable));
    store.reconnect();
    assert!(store.is_online());
    assert_eq!(store.select_all(), Ok(vec![post(1, "kept", "row")]));
    assert_eq!(store.insert("next", "row"), Ok(2));
}

#[test]
fn store_selects_a_row_by_its_id() {
    let mut store = Store::open("db");
    assert_eq!(store.insert("one", "1"), Ok(1));
    assert_eq!(store.insert("two", "2"), Ok(2));
    assert_eq!(store.insert("three", "3"), Ok(3));
    assert_eq!(store.select_by_id(1), Ok(Some(post(1, "one", "1"))));
    assert_eq!(store.select_by_id(2), Ok(Some(post(2, "two", "2"))));
    assert_eq!(store.select_by_id(3), Ok(Some(post(3, "three", "3"))));
}

#[test]
fn store_has_no_row_for_other_ids() {
    let mut store = Store::open("db");
    assert_eq!(store.select_by_id(1), Ok(None));
    assert_eq!(store.insert("one", "1"), Ok(1));
    for id in [0, -1, 2, 9999, i32::MIN, i32::MAX] {
        assert_eq!(store.select_by_id(id), Ok(None));
    }
}

#[test]
fn store_disconnect_and_reconnect_are_idempotent() {
    let mut store = Store::open("db");
    store.reconnect();
    assert!(store.is_online());
    store.disconnect();
    store.disconnect();
    assert!(!store.is_online());
    store.reconnect();
    store.reconnect();
    assert!(store.is_online());
    assert_eq!(store.url(), "db");
}

#[test]
fn store_with_rows_opens_over_a_posts_table() {
    let rows = vec![post(2, "two", "2"), post(5, "five", ""), post(9, "nine", "9")];
    let mut store = Store::with_rows("db", rows, 12).unwrap();
    assert!(store.is_online());
    assert_eq!(store.url(), "db");
    assert_eq!(
        store.select_all(),
        Ok(vec![post(2, "two", "2"), post(5, "five", ""), post(9, "nine", "9")])
    );
    assert_eq!(store.select_by_id(5), Ok(Some(post(5, "five", ""))));
    assert_eq!(store.select_by_id(3), Ok(None));
    assert_eq!(store.select_by_id(12), Ok(None));
    assert_eq!(store.insert("next", "row"), Ok(13));
    assert_eq!(store.select_by_id(13), Ok(Some(post(13, "next", "row"))));
}

#[test]
fn store_with_rows_takes_an_empty_table() {
    let mut store = Store::with_rows("db", Vec::new(), 0).unwrap();
    assert_eq!(store.select_all(), Ok(Vec::new()));
    assert_eq!(store.insert("first", ""), Ok(1));
    let mut store = Store::with_rows("db", Vec::new(), 41).unwrap();
    assert_eq!(store.insert("first", ""), Ok(42));
    assert_eq!(store.select_all(), Ok(vec![post(42, "first", "")]));
}

#[test]
fn store_with_rows_takes_rows_up_to_the_last_id() {
    assert!(Store::with_rows("db", vec![post(1, "a", "")], 1).is_some());
    assert!(Store::with_rows("db", vec![post(1, "a", ""), post(2, "b", "")], 2).is_some());
    assert!(Store::with_rows("db", vec![post(i32::MAX, "a", "")], i32::MAX).is_some());
}

#[test]
fn store_with_rows_refuses_what_is_no_posts_table() {
    assert!(Store::with_rows("db", Vec::new(), -1).is_none());
    assert!(Store::with_rows("db", Vec::new(), i32::MIN).is_none());
    assert!(Store::with_rows("db", vec![post(0, "zero", "")], 5).is_none());
    assert!(Store::with_rows("db", vec![post(-3, "negative", "")], 5).is_none());
    assert!(Store::with_rows("db", vec![post(6, "beyond", "")], 5).is_none());
    assert!(Store::with_rows("db", vec![post(1, "", "no title")], 5).is_none());
    assert!(Store::with_rows("db", vec![post(1, "a", ""), post(1, "b", "")], 5).is_none());
    assert!(Store::with_rows("db", vec![post(2, "a", ""), post(1, "b", "")], 5).is_none());
    assert!(
        Store::with_rows("db", vec![post(1, "a", ""), post(3, "b", ""), post(2, "c", "")], 5)
            .is_none()
    );
    assert!(
        Store::with_rows("db", vec![post(1, "a", ""), post(2, "b", ""), post(3, "", "")], 5)
            .is_none()
    );
    assert!(
        Store::with_rows("db", vec![post(1, "a", ""), post(2, "b", ""), post(6, "c", "")], 5)
            .is_none()
    );
}

#[test]
fn store_reports_an_exhausted_id_sequence() {
    let mut store = Store::with_rows("db", vec![post(7, "kept", "")], i32::MAX - 1).unwrap();
    assert_eq!(store.insert("last", "id"), Ok(i32::MAX));
    assert_eq!(
        store.insert("none", "left"),
        Err(StoreFault::Execution(String::from("post id sequence exhausted")))
    );
    assert_eq!(
        store.insert("", "title first"),
        Err(StoreFault::Constraint(String::from("title must not be empty")))
    );
    assert_eq!(
        store.select_all(),
        Ok(vec![post(7, "kept", ""), post(i32::MAX, "last", "id")])
    );
    assert_eq!(store.select_by_id(i32::MAX), Ok(Some(post(i32::MAX, "last", "id"))));
}
