use blog_db::queries::{
    create_comment, create_post, create_user, delete_comment, delete_post, delete_user,
};
use blog_db::schema::{QueryError, Store};

#[test]
fn create_user_echoes_columns() {
    let mut store = Store::new();
    let u = create_user(&mut store, "alice", "a@x.com", "h1").ok().unwrap();
    assert_eq!(u.user_id(), 1);
    assert_eq!(u.name(), "alice");
    assert_eq!(u.email(), "a@x.com");
    assert_eq!(u.password_hash(), "h1");
}

#[test]
fn create_then_delete_user() {
    let mut store = Store::new();
    let u = create_user(&mut store, "alice", "a@x.com", "h1").ok().unwrap();
    assert_eq!(delete_user(&mut store, u.user_id()).ok().unwrap(), 1);
    assert_eq!(delete_user(&mut store, u.user_id()).ok().unwrap(), 0);
}

#[test]
fn delete_missing_user_is_zero_not_error() {
    let mut store = Store::new();
    assert_eq!(delete_user(&mut store, 42).ok().unwrap(), 0);
}

#[test]
fn delete_missing_post_is_zero_not_error() {
    let mut store = Store::new();
    assert_eq!(delete_post(&mut store, 7).ok().unwrap(), 0);
}

#[test]
fn delete_missing_comment_is_zero_not_error() {
    let mut store = Store::new();
    assert_eq!(delete_comment(&mut store, 9).ok().unwrap(), 0);
}

#[test]
fn create_post_with_missing_user_is_constraint_error() {
    let mut store = Store::new();
    let r = create_post(&mut store, "hi", "body", true, 5);
    assert!(matches!(r, Err(QueryError::ForeignKeyViolation)));
}

#[test]
fn create_post_echoes_columns() {
    let mut store = Store::new();
    let u = create_user(&mut store, "alice", "a@x.com", "h1").ok().unwrap();
    let p = create_post(&mut store, "hi", "body", true, u.user_id()).ok().unwrap();
    assert_eq!(p.post_id(), 1);
    assert_eq!(p.title(), "hi");
    assert_eq!(p.post_body(), "body");
    assert!(p.published());
    assert_eq!(p.user_id(), u.user_id());
}

#[test]
fn create_comment_with_missing_post_is_constraint_error() {
    let mut store = Store::new();
    let u = create_user(&mut store, "alice", "a@x.com", "h1").ok().unwrap();
    let r = create_comment(&mut store, u.user_id(), 3, "hello");
    assert!(matches!(r, Err(QueryError::ForeignKeyViolation)));
}

#[test]
fn create_comment_with_missing_user_is_constraint_error() {
    let mut store = Store::new();
    let u = create_user(&mut store, "alice", "a@x.com", "h1").ok().unwrap();
    let p = create_post(&mut store, "hi", "body", true, u.user_id()).ok().unwrap();
    let r = create_comment(&mut store, u.user_id() + 1, p.post_id(), "hello");
    assert!(matches!(r, Err(QueryError::ForeignKeyViolation)));
}

#[test]
fn create_comment_echoes_inputs_and_keys_grow() {
    let mut store = Store::new();
    let u = create_user(&mut store, "alice", "a@x.com", "h1").ok().unwrap();
    let p = create_post(&mut store, "hi", "body", true, u.user_id()).ok().unwrap();
    let c1 = create_comment(&mut store, u.user_id(), p.post_id(), "hello").ok().unwrap();
    assert_eq!(c1.comment_id(), 1);
    assert_eq!(c1.user_id(), u.user_id());
    assert_eq!(c1.post_id(), p.post_id());
    assert_eq!(c1.comment_body(), "hello");
    let c2 = create_comment(&mut store, u.user_id(), p.post_id(), "again").ok().unwrap();
    assert!(c2.comment_id() > c1.comment_id());
    assert_eq!(c2.comment_id(), 2);
    let c3 = create_comment(&mut store, u.user_id(), p.post_id(), "more").ok().unwrap();
    assert!(c3.comment_id() > c2.comment_id());
}

#[test]
fn delete_referenced_user_is_constraint_error() {
    let mut store = Store::new();
    let u = create_user(&mut store, "alice", "a@x.com", "h1").ok().unwrap();
    let p = create_post(&mut store, "hi", "body", false, u.user_id()).ok().unwrap();
    assert!(matches!(
        delete_user(&mut store, u.user_id()),
        Err(QueryError::ForeignKeyViolation)
    ));
    assert_eq!(delete_post(&mut store, p.post_id()).ok().unwrap(), 1);
    assert_eq!(delete_user(&mut store, u.user_id()).ok().unwrap(), 1);
}

#[test]
fn delete_referenced_post_is_constraint_error() {
    let mut store = Store::new();
    let u = create_user(&mut store, "alice", "a@x.com", "h1").ok().unwrap();
    let p = create_post(&mut store, "hi", "body", false, u.user_id()).ok().unwrap();
    let c = create_comment(&mut store, u.user_id(), p.post_id(), "hello").ok().unwrap();
    assert!(matches!(
        delete_post(&mut store, p.post_id()),
        Err(QueryError::ForeignKeyViolation)
    ));
    assert_eq!(delete_comment(&mut store, c.comment_id()).ok().unwrap(), 1);
    assert_eq!(delete_post(&mut store, p.post_id()).ok().unwrap(), 1);
}

#[test]
fn keys_are_never_reused_after_delete() {
    let mut store = Store::new();
    let a = create_user(&mut store, "alice", "a@x.com", "h1").ok().unwrap();
    assert_eq!(delete_user(&mut store, a.user_id()).ok().unwrap(), 1);
    let b = create_user(&mut store, "bob", "b@x.com", "h2").ok().unwrap();
    assert_eq!(b.user_id(), 2);
}

#[test]
fn two_users_then_delete_then_post() {
    let mut store = Store::new();
    let a = create_user(&mut store, "alice", "a@x.com", "h1").ok().unwrap();
    assert_eq!(a.user_id(), 1);
    let b = create_user(&mut store, "bob", "b@x.com", "h2").ok().unwrap();
    assert_eq!(b.user_id(), 2);
    assert_eq!(delete_user(&mut store, 1).ok().unwrap(), 1);
    assert_eq!(delete_user(&mut store, 1).ok().unwrap(), 0);
    let p = create_post(&mut store, "hi", "body", true, 2).ok().unwrap();
    assert_eq!(p.post_id(), 1);
    assert_eq!(p.user_id(), 2);
}
