use blog_db::queries::{
    create_comment, create_post, create_user, delete_comment, delete_post, delete_user,
};
use blog_db::schema::Store;

const N: i32 = 3;

fn store_with_users(n: i32) -> Store {
    let mut store = Store::new();
    let mut i: i32 = 0;
    while i < n {
        let name = format!("user{}", i);
        let email = format!("u{}@x.com", i);
        let hash = format!("h{}", i);
        let u = create_user(&mut store, &name, &email, &hash).ok().unwrap();
        assert_eq!(u.user_id(), i + 1);
        i += 1;
    }
    store
}

#[test]
fn users_roundtrip_reverse_deletion() {
    // After each of the k newest deletions exactly the first n - k rows
    // remain; presence is probed by the delete row counts themselves.
    for k in 0..=N {
        let mut store = store_with_users(N);
        let mut step: i32 = 0;
        while step < k {
            assert_eq!(delete_user(&mut store, N - step).ok().unwrap(), 1);
            step += 1;
        }
        for id in 1..=N {
            let expected = if id <= N - k { 1 } else { 0 };
            assert_eq!(delete_user(&mut store, id).ok().unwrap(), expected);
        }
    }
}

#[test]
fn posts_roundtrip_reverse_deletion() {
    for k in 0..=N {
        let mut store = Store::new();
        let u = create_user(&mut store, "author", "a@x.com", "h").ok().unwrap();
        for i in 0..N {
            let title = format!("title{}", i);
            let body = format!("body{}", i);
            let p = create_post(&mut store, &title, &body, i % 2 == 0, u.user_id())
                .ok()
                .unwrap();
            assert_eq!(p.post_id(), i + 1);
        }
        let mut step: i32 = 0;
        while step < k {
            assert_eq!(delete_post(&mut store, N - step).ok().unwrap(), 1);
            step += 1;
        }
        for id in 1..=N {
            let expected = if id <= N - k { 1 } else { 0 };
            assert_eq!(delete_post(&mut store, id).ok().unwrap(), expected);
        }
    }
}

#[test]
fn comments_roundtrip_reverse_deletion() {
    for k in 0..=N {
        let mut store = Store::new();
        let u = create_user(&mut store, "author", "a@x.com", "h").ok().unwrap();
        let p = create_post(&mut store, "hi", "body", true, u.user_id()).ok().unwrap();
        for i in 0..N {
            let body = format!("comment{}", i);
            let c = create_comment(&mut store, u.user_id(), p.post_id(), &body)
                .ok()
                .unwrap();
            assert_eq!(c.comment_id(), i + 1);
        }
        let mut step: i32 = 0;
        while step < k {
            assert_eq!(delete_comment(&mut store, N - step).ok().unwrap(), 1);
            step += 1;
        }
        for id in 1..=N {
            let expected = if id <= N - k { 1 } else { 0 };
            assert_eq!(delete_comment(&mut store, id).ok().unwrap(), expected);
        }
    }
}

#[test]
fn distinct_field_values_survive_partial_deletion() {
    let mut store = store_with_users(N);
    assert_eq!(delete_user(&mut store, N).ok().unwrap(), 1);
    // The remaining rows still carry their own column values: a post
    // created by each remaining author echoes that author's key.
    for id in 1..N {
        let p = create_post(&mut store, "t", "b", false, id).ok().unwrap();
        assert_eq!(p.user_id(), id);
    }
}
