use user_service::model::{CreateUser, StorageFault, User};
use user_service::service::{
    create_user, get_user, get_users, handle_create, handle_get, handle_list, static_error, Body,
    CREATED, INTERNAL_SERVER_ERROR, NOT_FOUND, OK,
};
use user_service::table::UserTable;

fn req(name: &str, email: &str) -> CreateUser {
    CreateUser { name: name.to_string(), email: email.to_string() }
}

fn one(body: &Body) -> &User {
    match body {
        Body::One(u) => u,
        _ => panic!("expected one user"),
    }
}

#[test]
fn create_returns_submitted_fields_and_fresh_id() {
    let mut t = UserTable::new();
    let r = handle_create(&mut t, req("Ada", "ada@example.com"));
    assert_eq!(r.status, CREATED);
    let u = one(&r.body);
    assert_eq!(u.id, 1);
    assert_eq!(u.name, "Ada");
    assert_eq!(u.email, "ada@example.com");
    let r2 = handle_create(&mut t, req("Ada", "ada@example.com"));
    assert_eq!(one(&r2.body).id, 2);
}

#[test]
fn list_after_three_creates_has_exactly_those() {
    let mut t = UserTable::new();
    let mut ids = Vec::new();
    for (n, e) in [("a", "a@x"), ("b", "b@x"), ("c", "c@x")] {
        ids.push(one(&handle_create(&mut t, req(n, e)).body).id);
    }
    let r = handle_list(&t);
    assert_eq!(r.status, OK);
    match r.body {
        Body::Many(us) => {
            let got: Vec<i32> = us.iter().map(|u| u.id).collect();
            assert_eq!(got, ids);
            assert_eq!(us[1].name, "b");
            assert_eq!(us[2].email, "c@x");
        }
        _ => panic!("expected a list"),
    }
}

#[test]
fn list_of_empty_table_is_empty() {
    let t = UserTable::new();
    let r = handle_list(&t);
    assert_eq!(r.status, OK);
    assert!(matches!(r.body, Body::Many(ref us) if us.is_empty()));
}

#[test]
fn get_by_id_returns_created_user() {
    let mut t = UserTable::new();
    handle_create(&mut t, req("a", "a@x"));
    handle_create(&mut t, req("b", "b@x"));
    let r = handle_get(&t, 2);
    assert_eq!(r.status, OK);
    let u = one(&r.body);
    assert_eq!((u.id, u.name.as_str(), u.email.as_str()), (2, "b", "b@x"));
}

#[test]
fn get_by_unassigned_id_is_not_found() {
    let mut t = UserTable::new();
    handle_create(&mut t, req("a", "a@x"));
    for id in [0, -1, 2, i32::MAX] {
        let r = handle_get(&t, id);
        assert_eq!(r.status, NOT_FOUND);
        assert!(matches!(r.body, Body::Empty));
    }
}

#[test]
fn many_creates_get_distinct_ids() {
    let mut t = UserTable::new();
    let mut ids = Vec::new();
    for i in 0..50 {
        let r = handle_create(&mut t, req(&format!("u{}", i), "same@x"));
        ids.push(one(&r.body).id);
    }
    let mut sorted = ids.clone();
    sorted.sort();
    sorted.dedup();
    assert_eq!(sorted.len(), 50);
}

#[test]
fn insert_appends_row() {
    let mut t = UserTable::new();
    let u = t.insert(req("n", "e")).unwrap();
    assert_eq!(u.id, 1);
    let all = t.all();
    assert_eq!(all.len(), 1);
    assert_eq!(all[0].name, "n");
    assert_eq!(t.find(1).map(|u| u.email), Some("e".to_string()));
    assert!(t.find(3).is_none());
}

#[test]
fn storage_fault_on_create_is_server_error() {
    let r = create_user(Err(StorageFault));
    assert_eq!(r.status, INTERNAL_SERVER_ERROR);
    assert!(matches!(r.body, Body::Empty));
}

#[test]
fn storage_fault_on_list_is_server_error() {
    let r = get_users(Err(StorageFault));
    assert_eq!(r.status, INTERNAL_SERVER_ERROR);
    assert!(matches!(r.body, Body::Empty));
}

#[test]
fn storage_fault_on_get_is_not_found() {
    let r = get_user(Err(StorageFault));
    assert_eq!(r.status, NOT_FOUND);
    assert!(matches!(r.body, Body::Empty));
}

#[test]
fn stored_row_is_answered_with_its_status() {
    let u = User { id: 7, name: "x".to_string(), email: "y".to_string() };
    let r = create_user(Ok(u.clone()));
    assert_eq!(r.status, CREATED);
    assert_eq!(one(&r.body).id, 7);
    let r = get_user(Ok(u.clone()));
    assert_eq!(r.status, OK);
    assert_eq!(one(&r.body).email, "y");
    let r = get_users(Ok(vec![u]));
    assert_eq!(r.status, OK);
    assert!(matches!(r.body, Body::Many(ref us) if us.len() == 1 && us[0].id == 7));
}

#[test]
fn static_layer_failure_text() {
    let r = static_error();
    assert_eq!(r.status, INTERNAL_SERVER_ERROR);
    assert!(matches!(r.body, Body::Text(ref s) if s == "Static file error"));
}
