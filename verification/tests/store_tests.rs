use record_store::clock::Timestamp;
use record_store::rest_api::error::AppError;
use record_store::rest_api::models::{
    PaginationParams, PostCreate, PostListParams, PostUpdate, Role, UserCreate, UserListParams,
    UserUpdate,
};
use record_store::rest_api::store::Store;

fn at(secs: i64) -> Timestamp {
    Timestamp { secs, nanos: 0 }
}

fn user(name: &str, email: &str) -> UserCreate {
    UserCreate { name: name.to_string(), email: email.to_string(), role: Role::User }
}

fn post(title: &str, body: &str, published: bool) -> PostCreate {
    PostCreate { title: title.to_string(), body: body.to_string(), published }
}

fn page(page: u64, per_page: u64) -> PaginationParams {
    PaginationParams { page, per_page }
}

fn all_users(page_no: u64, per_page: u64) -> UserListParams {
    UserListParams { pagination: page(page_no, per_page), search: None }
}

fn search_users(query: &str) -> UserListParams {
    UserListParams { pagination: page(1, 20), search: Some(query.to_string()) }
}

#[test]
fn new_store_is_empty_and_starts_at_one() {
    let store = Store::new();
    assert_eq!(store.next_user_id(), 1);
    assert_eq!(store.next_post_id(), 1);
    let users = store.list_users(&all_users(1, 20));
    assert_eq!(users.total, 0);
    assert_eq!(users.pages, 0);
    assert!(users.items.is_empty());
}

#[test]
fn scenario_user_post_and_non_cascading_delete() {
    let mut store = Store::new();
    let ada = store.create_user(user("Ada", "ada@x.com"));
    assert_eq!(ada.id, 1);
    assert_eq!(ada.role, Role::User);
    assert_eq!(ada.role.to_string(), "user");
    assert_eq!(ada.name, "Ada");
    assert_eq!(ada.email, "ada@x.com");

    let created = store.create_post(1, post("T", "B", false)).unwrap();
    assert_eq!(created.id, 1);
    assert_eq!(created.author_id, 1);
    assert!(!created.published);
    assert_eq!(created.title, "T");
    assert_eq!(created.body, "B");

    let listed = store.list_posts(&PostListParams {
        pagination: page(1, 20),
        author_id: Some(1),
        published: false,
    });
    assert_eq!(listed.total, 1);
    assert_eq!(listed.items.len(), 1);
    assert_eq!(listed.items[0].id, 1);
    assert_eq!(listed.items[0].title, "T");
    assert_eq!(listed.page, 1);
    assert_eq!(listed.per_page, 20);
    assert_eq!(listed.pages, 1);

    assert!(store.delete_user(1).is_ok());
    let still_there = store.get_post(1).unwrap();
    assert_eq!(still_there.id, 1);
    assert_eq!(still_there.author_id, 1);
}

#[test]
fn created_users_get_growing_ids_and_are_found() {
    let mut store = Store::new();
    let mut last = 0;
    for i in 0..5 {
        let created = store.create_user_at(user("N", "e@x.com"), at(100 + i));
        assert!(created.id > last);
        assert_eq!(created.id, last + 1);
        last = created.id;
        let found = store.get_user(created.id).unwrap();
        assert_eq!(found.id, created.id);
        assert_eq!(found.name, created.name);
        assert_eq!(found.email, created.email);
        assert_eq!(found.role, created.role);
        assert_eq!(found.created_at, created.created_at);
        assert_eq!(found.updated_at, created.updated_at);
        assert_eq!(found.created_at, at(100 + i));
        assert_eq!(found.updated_at, at(100 + i));
    }
    assert_eq!(store.next_user_id(), 6);
}

#[test]
fn ids_are_not_reused_after_delete() {
    let mut store = Store::new();
    let a = store.create_user(user("A", "a@x.com"));
    let b = store.create_user(user("B", "b@x.com"));
    assert_eq!((a.id, b.id), (1, 2));
    store.delete_user(2).unwrap();
    store.delete_user(1).unwrap();
    let c = store.create_user(user("C", "c@x.com"));
    assert_eq!(c.id, 3);

    let first = store.create_post(3, post("t", "b", true)).unwrap();
    store.delete_post(first.id).unwrap();
    let second = store.create_post(3, post("t", "b", true)).unwrap();
    assert_eq!((first.id, second.id), (1, 2));
}

#[test]
fn create_user_stamps_the_current_time() {
    let mut store = Store::new();
    let created = store.create_user(user("Ada", "ada@x.com"));
    assert_eq!(created.created_at, created.updated_at);
    assert!(created.created_at.secs > 1_600_000_000);
    assert!(created.created_at.nanos < 2_000_000_000);
}

#[test]
fn deleted_user_is_not_found_and_second_delete_fails() {
    let mut store = Store::new();
    let ada = store.create_user(user("Ada", "ada@x.com"));
    assert!(store.delete_user(ada.id).is_ok());
    match store.get_user(ada.id) {
        Err(AppError::NotFound(message)) => assert_eq!(message, "User 1 not found"),
        _ => panic!("the user should be gone"),
    }
    match store.delete_user(ada.id) {
        Err(AppError::NotFound(message)) => assert_eq!(message, "User 1 not found"),
        _ => panic!("the second delete should fail"),
    }
}

#[test]
fn deleted_post_is_not_found_and_second_delete_fails() {
    let mut store = Store::new();
    store.create_user(user("Ada", "ada@x.com"));
    let p = store.create_post(1, post("T", "B", false)).unwrap();
    assert!(store.delete_post(p.id).is_ok());
    match store.get_post(p.id) {
        Err(AppError::NotFound(message)) => assert_eq!(message, "Post 1 not found"),
        _ => panic!("the post should be gone"),
    }
    match store.delete_post(p.id) {
        Err(AppError::NotFound(message)) => assert_eq!(message, "Post 1 not found"),
        _ => panic!("the second delete should fail"),
    }
}

#[test]
fn missing_records_are_reported_with_kind_and_id() {
    let mut store = Store::new();
    match store.get_user(42) {
        Err(AppError::NotFound(message)) => assert_eq!(message, "User 42 not found"),
        _ => panic!("expected NotFound"),
    }
    match store.get_post(18446744073709551615) {
        Err(AppError::NotFound(message)) => {
            assert_eq!(message, "Post 18446744073709551615 not found")
        }
        _ => panic!("expected NotFound"),
    }
    let no_change = UserUpdate { name: None, email: None, role: None };
    match store.update_user(7, no_change) {
        Err(e) => {
            assert!(matches!(e, AppError::NotFound(_)));
            assert_eq!(e.to_string(), "User 7 not found");
        }
        Ok(_) => panic!("expected NotFound"),
    }
    let no_change = PostUpdate { title: None, body: None, published: None };
    match store.update_post(0, no_change) {
        Err(e) => {
            assert!(matches!(e, AppError::NotFound(_)));
            assert_eq!(e.to_string(), "Post 0 not found");
        }
        Ok(_) => panic!("expected NotFound"),
    }
}

#[test]
fn post_for_missing_author_is_a_bad_request_and_uses_no_id() {
    let mut store = Store::new();
    store.create_user(user("Ada", "ada@x.com"));
    let before = store.next_post_id();
    match store.create_post(2, post("T", "B", true)) {
        Err(AppError::BadRequest(message)) => assert_eq!(message, "Author 2 not found"),
        _ => panic!("expected BadRequest"),
    }
    assert_eq!(store.next_post_id(), before);
    let all = store.list_posts(&PostListParams {
        pagination: page(1, 20),
        author_id: None,
        published: false,
    });
    assert_eq!(all.total, 0);
    let created = store.create_post(1, post("T", "B", true)).unwrap();
    assert_eq!(created.id, before);
}

#[test]
fn post_for_deleted_author_is_a_bad_request() {
    let mut store = Store::new();
    store.create_user(user("Ada", "ada@x.com"));
    store.delete_user(1).unwrap();
    assert!(matches!(store.create_post(1, post("T", "B", true)), Err(AppError::BadRequest(_))));
    assert_eq!(store.next_post_id(), 1);
}

#[test]
fn search_matches_name_or_email_ignoring_case() {
    let mut store = Store::new();
    store.create_user(user("Ada Lovelace", "countess@math.org"));
    store.create_user(user("Grace Hopper", "grace@NAVY.mil"));
    store.create_user(user("Alan Turing", "alan@bletchley.uk"));

    let by_name = store.list_users(&search_users("ADA"));
    assert_eq!(by_name.total, 1);
    assert_eq!(by_name.items.len(), 1);
    assert_eq!(by_name.items[0].name, "Ada Lovelace");

    let by_email = store.list_users(&search_users("navy"));
    assert_eq!(by_email.total, 1);
    assert_eq!(by_email.items[0].name, "Grace Hopper");

    let several = store.list_users(&search_users("aL"));
    assert_eq!(several.total, 1);
    assert_eq!(several.items[0].name, "Alan Turing");

    let two = store.list_users(&search_users("LA"));
    let mut names: Vec<String> = two.items.iter().map(|u| u.name.clone()).collect();
    names.sort();
    assert_eq!(names, vec!["Ada Lovelace".to_string(), "Alan Turing".to_string()]);
    assert_eq!(two.total, 2);

    let none = store.list_users(&search_users("zzz"));
    assert_eq!(none.total, 0);
    assert_eq!(none.pages, 0);
    assert!(none.items.is_empty());
}

#[test]
fn empty_or_absent_search_returns_all_users() {
    let mut store = Store::new();
    for i in 0..7 {
        store.create_user(user(&format!("user{i}"), &format!("u{i}@x.com")));
    }
    let absent = store.list_users(&all_users(1, 20));
    assert_eq!(absent.total, 7);
    assert_eq!(absent.items.len(), 7);
    let empty = store.list_users(&search_users(""));
    assert_eq!(empty.total, 7);
    assert_eq!(empty.items.len(), 7);
    let mut ids: Vec<u64> = empty.items.iter().map(|u| u.id).collect();
    ids.sort();
    assert_eq!(ids, vec![1, 2, 3, 4, 5, 6, 7]);
}

#[test]
fn twenty_five_users_fill_two_pages() {
    let mut store = Store::new();
    for i in 0..25 {
        store.create_user(user(&format!("user{i}"), &format!("u{i}@x.com")));
    }
    let first = store.list_users(&all_users(1, 20));
    assert_eq!(first.items.len(), 20);
    assert_eq!(first.total, 25);
    assert_eq!(first.pages, 2);
    assert_eq!(first.page, 1);
    assert_eq!(first.per_page, 20);

    let second = store.list_users(&all_users(2, 20));
    assert_eq!(second.items.len(), 5);
    assert_eq!(second.total, 25);
    assert_eq!(second.pages, 2);
    assert_eq!(second.page, 2);

    let third = store.list_users(&all_users(3, 20));
    assert!(third.items.is_empty());
    assert_eq!(third.total, 25);

    let mut ids: Vec<u64> = first.items.iter().chain(second.items.iter()).map(|u| u.id).collect();
    ids.sort();
    assert_eq!(ids, (1..=25).collect::<Vec<u64>>());
}

#[test]
fn zero_page_and_zero_page_size_count_as_one() {
    let mut store = Store::new();
    for i in 0..3 {
        store.create_user(user(&format!("user{i}"), "e@x.com"));
    }
    let r = store.list_users(&all_users(0, 0));
    assert_eq!(r.page, 1);
    assert_eq!(r.per_page, 1);
    assert_eq!(r.items.len(), 1);
    assert_eq!(r.total, 3);
    assert_eq!(r.pages, 3);
}

#[test]
fn huge_page_numbers_give_an_empty_page() {
    let mut store = Store::new();
    for i in 0..3 {
        store.create_user(user(&format!("user{i}"), "e@x.com"));
    }
    let r = store.list_users(&all_users(u64::MAX, u64::MAX));
    assert!(r.items.is_empty());
    assert_eq!(r.total, 3);
    assert_eq!(r.pages, 1);
    let r = store.list_users(&all_users(1, u64::MAX));
    assert_eq!(r.items.len(), 3);
    assert_eq!(r.pages, 1);
}

#[test]
fn posts_are_filtered_by_author_and_published_flag() {
    let mut store = Store::new();
    store.create_user(user("A", "a@x.com"));
    store.create_user(user("B", "b@x.com"));
    store.create_post(1, post("a1", "b", true)).unwrap();
    store.create_post(1, post("a2", "b", false)).unwrap();
    store.create_post(2, post("b1", "b", true)).unwrap();
    store.create_post(2, post("b2", "b", true)).unwrap();
    store.create_post(2, post("b3", "b", false)).unwrap();

    let list = |author_id: Option<u64>, published: bool| {
        let r = store.list_posts(&PostListParams { pagination: page(1, 20), author_id, published });
        let mut titles: Vec<String> = r.items.iter().map(|p| p.title.clone()).collect();
        titles.sort();
        assert_eq!(r.total, titles.len());
        titles
    };
    assert_eq!(list(None, false), vec!["a1", "a2", "b1", "b2", "b3"]);
    assert_eq!(list(Some(1), false), vec!["a1", "a2"]);
    assert_eq!(list(Some(2), true), vec!["b1", "b2"]);
    assert_eq!(list(None, true), vec!["a1", "b1", "b2"]);
    assert_eq!(list(Some(3), false), Vec::<String>::new());

    let paged = store.list_posts(&PostListParams {
        pagination: page(2, 2),
        author_id: Some(2),
        published: false,
    });
    assert_eq!(paged.total, 3);
    assert_eq!(paged.pages, 2);
    assert_eq!(paged.items.len(), 1);
    assert_eq!(paged.items[0].author_id, 2);
}

#[test]
fn update_without_fields_changes_only_the_update_instant() {
    let mut store = Store::new();
    let created = store.create_user_at(
        UserCreate { name: "Ada".to_string(), email: "ada@x.com".to_string(), role: Role::Admin },
        at(10),
    );
    let updated = store
        .update_user_at(created.id, UserUpdate { name: None, email: None, role: None }, at(20))
        .unwrap();
    assert_eq!(updated.id, created.id);
    assert_eq!(updated.name, created.name);
    assert_eq!(updated.email, created.email);
    assert_eq!(updated.role, created.role);
    assert_eq!(updated.created_at, at(10));
    assert_eq!(updated.updated_at, at(20));
    let stored = store.get_user(created.id).unwrap();
    assert_eq!(stored.name, "Ada");
    assert_eq!(stored.updated_at, at(20));
    assert_eq!(stored.created_at, at(10));

    let p = store.create_post_at(created.id, post("T", "B", true), at(30)).unwrap();
    let q = store
        .update_post_at(p.id, PostUpdate { title: None, body: None, published: None }, at(40))
        .unwrap();
    assert_eq!(q.id, p.id);
    assert_eq!(q.author_id, p.author_id);
    assert_eq!(q.title, p.title);
    assert_eq!(q.body, p.body);
    assert_eq!(q.published, p.published);
    assert_eq!(q.created_at, at(30));
    assert_eq!(q.updated_at, at(40));
}

#[test]
fn update_applies_only_the_fields_that_are_present() {
    let mut store = Store::new();
    let created = store.create_user_at(user("Ada", "ada@x.com"), at(10));
    let updated = store
        .update_user_at(
            created.id,
            UserUpdate {
                name: Some("Ada L.".to_string()),
                email: None,
                role: Some(Role::Moderator),
            },
            at(11),
        )
        .unwrap();
    assert_eq!(updated.name, "Ada L.");
    assert_eq!(updated.email, "ada@x.com");
    assert_eq!(updated.role, Role::Moderator);
    assert_eq!(updated.created_at, at(10));
    assert_eq!(updated.updated_at, at(11));

    let p = store.create_post_at(created.id, post("T", "B", false), at(12)).unwrap();
    let q = store
        .update_post_at(
            p.id,
            PostUpdate { title: None, body: Some("B2".to_string()), published: Some(true) },
            at(13),
        )
        .unwrap();
    assert_eq!(q.title, "T");
    assert_eq!(q.body, "B2");
    assert!(q.published);
    let stored = store.get_post(p.id).unwrap();
    assert_eq!(stored.body, "B2");
    assert!(stored.published);
    assert_eq!(stored.updated_at, at(13));
}

#[test]
fn update_with_the_clock_refreshes_the_update_instant() {
    let mut store = Store::new();
    let created = store.create_user_at(user("Ada", "ada@x.com"), at(10));
    let updated =
        store.update_user(created.id, UserUpdate { name: None, email: None, role: None }).unwrap();
    assert_eq!(updated.created_at, at(10));
    assert!(updated.updated_at.secs > 1_600_000_000);
    let p = store.create_post(created.id, post("T", "B", false)).unwrap();
    assert_eq!(p.created_at, p.updated_at);
    assert!(p.created_at.secs > 1_600_000_000);
    let q = store
        .update_post(p.id, PostUpdate { title: None, body: None, published: Some(true) })
        .unwrap();
    assert_eq!(q.created_at, p.created_at);
    assert!(q.updated_at.secs >= p.created_at.secs);
    assert!(q.published);
}
