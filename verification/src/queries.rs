//! The operation surface: create and delete for users, posts and comments.
//!
//! Every create builds an insert model from its plain arguments, executes a
//! single-row insert, and then reads back the row with the largest key —
//! the insert-then-fetch-latest pattern. Every delete removes at most the
//! one row matching the given key; a missing row is not an error, it is a
//! success that affected zero rows. Creates never check foreign keys
//! themselves: the store enforces the declared constraints and its error is
//! handed back unchanged.

use vstd::prelude::*;

use crate::models::{Comment, NewComment, NewCommentView, NewPost, NewPostView, NewUser,
    NewUserView, Post, User};
use crate::schema::{QueryError, Store};

verus! {

/// Creates a user from the three string columns and returns the fetched
/// row: the store assigns it the next free key, and a fetch of that key
/// finds exactly these column values.
pub fn create_user(conn: &mut Store, name: &str, email: &str, password_hash: &str) -> (r: Result<
    User,
    QueryError,
>)
    requires
        old(conn)@.wf(),
        name@.len() <= 255,
        email@.len() <= 255,
        password_hash@.len() <= 255,
        old(conn)@.next_user_id < i32::MAX as int,
    ensures
        final(conn)@.wf(),
        ({
            let nu = NewUserView { name: name@, email: email@, password_hash: password_hash@ };
            let id = old(conn)@.next_user_id;
            &&& final(conn)@ == old(conn)@.insert_user_tr(nu)
            &&& r matches Ok(u) && u@ == nu.row(id)
            &&& final(conn)@.contains_user(id)
            &&& final(conn)@.user_row(id) == nu.row(id)
        }),
{
    let new_user = NewUser {
        name: name.to_owned(),
        email: email.to_owned(),
        password_hash: password_hash.to_owned(),
    };
    let _count = conn.insert_user(new_user);
    proof {
        crate::laws::lemma_insert_user_wf(
            old(conn)@,
            NewUserView { name: name@, email: email@, password_hash: password_hash@ },
        );
    }
    let u = conn.latest_user();
    Ok(u)
}

/// Deletes the user with the given key and returns how many rows went: one
/// when the key was present, zero — not an error — when it was not. A user
/// some post or comment still references cannot go: the store reports the
/// foreign-key violation and keeps the row.
pub fn delete_user(conn: &mut Store, user_id: i32) -> (r: Result<usize, QueryError>)
    requires
        old(conn)@.wf(),
    ensures
        final(conn)@.wf(),
        final(conn)@ == old(conn)@.delete_user_tr(user_id as int),
        (!old(conn)@.contains_user(user_id as int) ==> r == Ok::<usize, QueryError>(0usize)
            && final(conn)@ == old(conn)@),
        (old(conn)@.contains_user(user_id as int) && old(conn)@.user_referenced(user_id as int)
            ==> r == Err::<usize, QueryError>(QueryError::ForeignKeyViolation) && final(conn)@
            == old(conn)@),
        (old(conn)@.contains_user(user_id as int) && !old(conn)@.user_referenced(user_id as int)
            ==> r == Ok::<usize, QueryError>(1usize) && final(conn)@ == old(conn)@.remove_user_tr(
            user_id as int,
        ) && !final(conn)@.contains_user(user_id as int) && final(conn)@.user_ids() == old(conn)@.user_ids().remove(user_id as int)),
{
    let r = conn.remove_user(user_id);
    proof {
        if old(conn)@.contains_user(user_id as int) && !old(conn)@.user_referenced(
            user_id as int,
        ) {
            crate::laws::lemma_remove_user_wf(old(conn)@, user_id as int);
        }
    }
    r
}

/// Creates a post from its plain arguments and returns the fetched row.
/// The `user_id` argument is not validated here: when it references no
/// user, the store rejects the insert and that constraint error is
/// returned unchanged.
pub fn create_post(conn: &mut Store, title: &str, body: &str, is_published: bool, user_id: i32) -> (r:
    Result<Post, QueryError>)
    requires
        old(conn)@.wf(),
        title@.len() <= 255,
        old(conn)@.next_post_id < i32::MAX as int,
    ensures
        final(conn)@.wf(),
        (!old(conn)@.contains_user(user_id as int) ==> r == Err::<Post, QueryError>(
            QueryError::ForeignKeyViolation,
        ) && final(conn)@ == old(conn)@),
        ({
            let np = NewPostView {
                title: title@,
                post_body: body@,
                published: is_published,
                user_id: user_id as int,
            };
            let id = old(conn)@.next_post_id;
            old(conn)@.contains_user(user_id as int) ==> {
                &&& final(conn)@ == old(conn)@.insert_post_tr(np)
                &&& r matches Ok(p) && p@ == np.row(id)
                &&& final(conn)@.contains_post(id)
                &&& final(conn)@.post_row(id) == np.row(id)
            }
        }),
{
    let new_post = NewPost {
        title: title.to_owned(),
        post_body: body.to_owned(),
        published: is_published,
        user_id,
    };
    match conn.insert_post(new_post) {
        Err(e) => Err(e),
        Ok(_) => {
            proof {
                crate::laws::lemma_insert_post_wf(
                    old(conn)@,
                    NewPostView {
                        title: title@,
                        post_body: body@,
                        published: is_published,
                        user_id: user_id as int,
                    },
                );
            }
            let p = conn.latest_post();
            Ok(p)
        },
    }
}

/// Deletes the post with the given key; zero affected rows is not an
/// error, and a post some comment still references cannot go.
pub fn delete_post(conn: &mut Store, post_id: i32) -> (r: Result<usize, QueryError>)
    requires
        old(conn)@.wf(),
    ensures
        final(conn)@.wf(),
        final(conn)@ == old(conn)@.delete_post_tr(post_id as int),
        (!old(conn)@.contains_post(post_id as int) ==> r == Ok::<usize, QueryError>(0usize)
            && final(conn)@ == old(conn)@),
        (old(conn)@.contains_post(post_id as int) && old(conn)@.post_referenced(post_id as int)
            ==> r == Err::<usize, QueryError>(QueryError::ForeignKeyViolation) && final(conn)@
            == old(conn)@),
        (old(conn)@.contains_post(post_id as int) && !old(conn)@.post_referenced(post_id as int)
            ==> r == Ok::<usize, QueryError>(1usize) && final(conn)@ == old(conn)@.remove_post_tr(
            post_id as int,
        ) && !final(conn)@.contains_post(post_id as int) && final(conn)@.post_ids() == old(conn)@.post_ids().remove(post_id as int)),
{
    let r = conn.remove_post(post_id);
    proof {
        if old(conn)@.contains_post(post_id as int) && !old(conn)@.post_referenced(
            post_id as int,
        ) {
            crate::laws::lemma_remove_post_wf(old(conn)@, post_id as int);
        }
    }
    r
}

/// Creates a comment from its plain arguments and returns the fetched row.
/// Neither referenced key is validated here: when either references no
/// row, the store rejects the insert and that constraint error is returned
/// unchanged. A returned comment's key is strictly greater than every
/// comment key the store ever assigned before it.
pub fn create_comment(conn: &mut Store, user_id: i32, post_id: i32, body: &str) -> (r: Result<
    Comment,
    QueryError,
>)
    requires
        old(conn)@.wf(),
        old(conn)@.next_comment_id < i32::MAX as int,
    ensures
        final(conn)@.wf(),
        (!(old(conn)@.contains_user(user_id as int) && old(conn)@.contains_post(post_id as int))
            ==> r == Err::<Comment, QueryError>(QueryError::ForeignKeyViolation) && final(conn)@
            == old(conn)@),
        ({
            let nc = NewCommentView {
                post_id: post_id as int,
                user_id: user_id as int,
                comment_body: body@,
            };
            let id = old(conn)@.next_comment_id;
            old(conn)@.contains_user(user_id as int) && old(conn)@.contains_post(post_id as int)
                ==> {
                &&& final(conn)@ == old(conn)@.insert_comment_tr(nc)
                &&& r matches Ok(c) && c@ == nc.row(id)
                &&& final(conn)@.contains_comment(id)
                &&& final(conn)@.comment_row(id) == nc.row(id)
                &&& forall|i: int|
                    0 <= i < old(conn)@.comments.len() ==> (#[trigger] old(conn)@.comments[i]).comment_id < id
            }
        }),
{
    let new_comment = NewComment { user_id, post_id, comment_body: body.to_owned() };
    match conn.insert_comment(new_comment) {
        Err(e) => Err(e),
        Ok(_) => {
            proof {
                crate::laws::lemma_insert_comment_wf(
                    old(conn)@,
                    NewCommentView {
                        post_id: post_id as int,
                        user_id: user_id as int,
                        comment_body: body@,
                    },
                );
            }
            let c = conn.latest_comment();
            Ok(c)
        },
    }
}

/// Deletes the comment with the given key; zero affected rows is not an
/// error, and nothing references a comment, so a present row always goes.
pub fn delete_comment(conn: &mut Store, id: i32) -> (r: Result<usize, QueryError>)
    requires
        old(conn)@.wf(),
    ensures
        final(conn)@.wf(),
        final(conn)@ == old(conn)@.delete_comment_tr(id as int),
        (!old(conn)@.contains_comment(id as int) ==> r == Ok::<usize, QueryError>(0usize)
            && final(conn)@ == old(conn)@),
        (old(conn)@.contains_comment(id as int) ==> r == Ok::<usize, QueryError>(1usize)
            && final(conn)@ == old(conn)@.remove_comment_tr(id as int) && !final(conn)@.contains_comment(id as int) && final(conn)@.comment_ids() == old(conn)@.comment_ids().remove(id as int)),
{
    let r = conn.remove_comment(id);
    proof {
        if old(conn)@.contains_comment(id as int) {
            crate::laws::lemma_remove_comment_wf(old(conn)@, id as int);
        }
    }
    r
}

} // verus!
