//! Proved facts about the store's transitions: that every operation keeps
//! the store well-formed, that each row is found under exactly the key it
//! carries, that a freshly created row can always be deleted again, and
//! that a run of inserts undone in reverse order leaves, after each step,
//! exactly the rows that were not yet deleted.

use vstd::prelude::*;

use crate::models::{NewCommentView, NewPostView, NewUserView};
use crate::schema::StoreView;

verus! {

/// Presence of a user depends on the `users` table alone.
proof fn lemma_contains_user_frame(s: StoreView, t: StoreView)
    requires
        t.users == s.users,
    ensures
        forall|x: int| #[trigger] t.contains_user(x) == s.contains_user(x),
{
    assert forall|x: int| #[trigger] t.contains_user(x) == s.contains_user(x) by {
        if s.contains_user(x) {
            let w = choose|w: int| 0 <= w < s.users.len() && s.users[w].user_id == x;
            assert(t.users[w] == s.users[w]);
            assert(t.contains_user(x));
        }
        if t.contains_user(x) {
            let w = choose|w: int| 0 <= w < t.users.len() && t.users[w].user_id == x;
            assert(s.users[w] == t.users[w]);
            assert(s.contains_user(x));
        }
    }
}

/// Presence of a post depends on the `posts` table alone.
proof fn lemma_contains_post_frame(s: StoreView, t: StoreView)
    requires
        t.posts == s.posts,
    ensures
        forall|x: int| #[trigger] t.contains_post(x) == s.contains_post(x),
{
    assert forall|x: int| #[trigger] t.contains_post(x) == s.contains_post(x) by {
        if s.contains_post(x) {
            let w = choose|w: int| 0 <= w < s.posts.len() && s.posts[w].post_id == x;
            assert(t.posts[w] == s.posts[w]);
            assert(t.contains_post(x));
        }
        if t.contains_post(x) {
            let w = choose|w: int| 0 <= w < t.posts.len() && t.posts[w].post_id == x;
            assert(s.posts[w] == t.posts[w]);
            assert(s.contains_post(x));
        }
    }
}

/// Presence of a comment depends on the `comments` table alone.
proof fn lemma_contains_comment_frame(s: StoreView, t: StoreView)
    requires
        t.comments == s.comments,
    ensures
        forall|x: int| #[trigger] t.contains_comment(x) == s.contains_comment(x),
{
    assert forall|x: int| #[trigger] t.contains_comment(x) == s.contains_comment(x) by {
        if s.contains_comment(x) {
            let w = choose|w: int| 0 <= w < s.comments.len() && s.comments[w].comment_id == x;
            assert(t.comments[w] == s.comments[w]);
            assert(t.contains_comment(x));
        }
        if t.contains_comment(x) {
            let w = choose|w: int| 0 <= w < t.comments.len() && t.comments[w].comment_id == x;
            assert(s.comments[w] == t.comments[w]);
            assert(s.contains_comment(x));
        }
    }
}

/// After one more `users` row, exactly the old keys and the new row's key
/// are present.
proof fn lemma_contains_user_after_push(s: StoreView, t: StoreView, r: crate::models::UserView)
    requires
        t.users == s.users.push(r),
    ensures
        forall|x: int| #[trigger] t.contains_user(x) == (s.contains_user(x) || x == r.user_id),
{
    assert forall|x: int| #[trigger] t.contains_user(x) == (s.contains_user(x) || x == r.user_id)
        by {
        if s.contains_user(x) {
            let w = choose|w: int| 0 <= w < s.users.len() && s.users[w].user_id == x;
            assert(t.users[w] == s.users[w]);
            assert(t.contains_user(x));
        }
        if x == r.user_id {
            assert(t.users[s.users.len() as int] == r);
            assert(t.contains_user(x));
        }
        if t.contains_user(x) {
            let w = choose|w: int| 0 <= w < t.users.len() && t.users[w].user_id == x;
            if w < s.users.len() {
                assert(s.users[w] == t.users[w]);
                assert(s.contains_user(x));
            } else {
                assert(t.users[w] == r);
            }
        }
    }
}

/// After one more `posts` row, exactly the old keys and the new row's key
/// are present.
proof fn lemma_contains_post_after_push(s: StoreView, t: StoreView, r: crate::models::PostView)
    requires
        t.posts == s.posts.push(r),
    ensures
        forall|x: int| #[trigger] t.contains_post(x) == (s.contains_post(x) || x == r.post_id),
{
    assert forall|x: int| #[trigger] t.contains_post(x) == (s.contains_post(x) || x == r.post_id)
        by {
        if s.contains_post(x) {
            let w = choose|w: int| 0 <= w < s.posts.len() && s.posts[w].post_id == x;
            assert(t.posts[w] == s.posts[w]);
            assert(t.contains_post(x));
        }
        if x == r.post_id {
            assert(t.posts[s.posts.len() as int] == r);
            assert(t.contains_post(x));
        }
        if t.contains_post(x) {
            let w = choose|w: int| 0 <= w < t.posts.len() && t.posts[w].post_id == x;
            if w < s.posts.len() {
                assert(s.posts[w] == t.posts[w]);
                assert(s.contains_post(x));
            } else {
                assert(t.posts[w] == r);
            }
        }
    }
}

/// After one more `comments` row, exactly the old keys and the new row's
/// key are present.
proof fn lemma_contains_comment_after_push(
    s: StoreView,
    t: StoreView,
    r: crate::models::CommentView,
)
    requires
        t.comments == s.comments.push(r),
    ensures
        forall|x: int| #[trigger] t.contains_comment(x) == (s.contains_comment(x) || x
            == r.comment_id),
{
    assert forall|x: int| #[trigger] t.contains_comment(x) == (s.contains_comment(x) || x
        == r.comment_id) by {
        if s.contains_comment(x) {
            let w = choose|w: int| 0 <= w < s.comments.len() && s.comments[w].comment_id == x;
            assert(t.comments[w] == s.comments[w]);
            assert(t.contains_comment(x));
        }
        if x == r.comment_id {
            assert(t.comments[s.comments.len() as int] == r);
            assert(t.contains_comment(x));
        }
        if t.contains_comment(x) {
            let w = choose|w: int| 0 <= w < t.comments.len() && t.comments[w].comment_id == x;
            if w < s.comments.len() {
                assert(s.comments[w] == t.comments[w]);
                assert(s.contains_comment(x));
            } else {
                assert(t.comments[w] == r);
            }
        }
    }
}

/// In a well-formed `users` table every row is found, by its own key, at
/// its own position: keys are unique.
pub proof fn lemma_user_lookup(s: StoreView, i: int)
    requires
        s.users_wf(),
        0 <= i < s.users.len(),
    ensures
        s.contains_user(s.users[i].user_id),
        s.user_index(s.users[i].user_id) == i,
        s.user_row(s.users[i].user_id) == s.users[i],
{
    let id = s.users[i].user_id;
    assert(s.contains_user(id));
    let j = s.user_index(id);
    assert(0 <= j < s.users.len() && s.users[j].user_id == id);
    if i < j {
        assert(s.users[i].user_id < s.users[j].user_id);
    }
    if j < i {
        assert(s.users[j].user_id < s.users[i].user_id);
    }
}

/// The same for `posts`.
pub proof fn lemma_post_lookup(s: StoreView, i: int)
    requires
        s.posts_wf(),
        0 <= i < s.posts.len(),
    ensures
        s.contains_post(s.posts[i].post_id),
        s.post_index(s.posts[i].post_id) == i,
        s.post_row(s.posts[i].post_id) == s.posts[i],
{
    let id = s.posts[i].post_id;
    assert(s.contains_post(id));
    let j = s.post_index(id);
    assert(0 <= j < s.posts.len() && s.posts[j].post_id == id);
    if i < j {
        assert(s.posts[i].post_id < s.posts[j].post_id);
    }
    if j < i {
        assert(s.posts[j].post_id < s.posts[i].post_id);
    }
}

/// The same for `comments`.
pub proof fn lemma_comment_lookup(s: StoreView, i: int)
    requires
        s.comments_wf(),
        0 <= i < s.comments.len(),
    ensures
        s.contains_comment(s.comments[i].comment_id),
        s.comment_index(s.comments[i].comment_id) == i,
        s.comment_row(s.comments[i].comment_id) == s.comments[i],
{
    let id = s.comments[i].comment_id;
    assert(s.contains_comment(id));
    let j = s.comment_index(id);
    assert(0 <= j < s.comments.len() && s.comments[j].comment_id == id);
    if i < j {
        assert(s.comments[i].comment_id < s.comments[j].comment_id);
    }
    if j < i {
        assert(s.comments[j].comment_id < s.comments[i].comment_id);
    }
}

/// A `users` insert keeps the store well-formed, and the new row is found
/// under the key the store assigned it.
pub proof fn lemma_insert_user_wf(s: StoreView, nu: NewUserView)
    requires
        s.wf(),
        nu.bounded(),
        s.next_user_id < i32::MAX as int,
    ensures
        s.insert_user_tr(nu).wf(),
        s.insert_user_tr(nu).contains_user(s.next_user_id),
        s.insert_user_tr(nu).user_row(s.next_user_id) == nu.row(s.next_user_id),
{
    let t = s.insert_user_tr(nu);
    assert forall|i: int, j: int|
        #![trigger t.users[i], t.users[j]]
        0 <= i < j < t.users.len() implies t.users[i].user_id < t.users[j].user_id by {
        if j < s.users.len() {
            assert(t.users[i] == s.users[i] && t.users[j] == s.users[j]);
        } else {
            assert(t.users[i] == s.users[i] && t.users[j] == nu.row(s.next_user_id));
        }
    }
    assert forall|i: int| #![trigger t.users[i]] 0 <= i < t.users.len() implies {
        &&& 1 <= t.users[i].user_id < t.next_user_id
        &&& t.users[i].name.len() <= 255
        &&& t.users[i].email.len() <= 255
        &&& t.users[i].password_hash.len() <= 255
    } by {
        if i < s.users.len() {
            assert(t.users[i] == s.users[i]);
        } else {
            assert(t.users[i] == nu.row(s.next_user_id));
        }
    }
    lemma_contains_user_after_push(s, t, nu.row(s.next_user_id));
    lemma_contains_post_frame(s, t);
    lemma_contains_comment_frame(s, t);
    assert(t.wf());
    assert(t.users[t.users.len() - 1] == nu.row(s.next_user_id));
    lemma_user_lookup(t, t.users.len() - 1);
}

/// A `posts` insert whose foreign key is satisfied keeps the store
/// well-formed, and the new row is found under its assigned key.
pub proof fn lemma_insert_post_wf(s: StoreView, np: NewPostView)
    requires
        s.wf(),
        np.bounded(),
        s.next_post_id < i32::MAX as int,
        s.contains_user(np.user_id),
    ensures
        s.insert_post_tr(np).wf(),
        s.insert_post_tr(np).contains_post(s.next_post_id),
        s.insert_post_tr(np).post_row(s.next_post_id) == np.row(s.next_post_id),
{
    let t = s.insert_post_tr(np);
    assert forall|i: int, j: int|
        #![trigger t.posts[i], t.posts[j]]
        0 <= i < j < t.posts.len() implies t.posts[i].post_id < t.posts[j].post_id by {
        if j < s.posts.len() {
            assert(t.posts[i] == s.posts[i] && t.posts[j] == s.posts[j]);
        } else {
            assert(t.posts[i] == s.posts[i] && t.posts[j] == np.row(s.next_post_id));
        }
    }
    lemma_contains_user_frame(s, t);
    lemma_contains_post_after_push(s, t, np.row(s.next_post_id));
    lemma_contains_comment_frame(s, t);
    assert forall|i: int| #![trigger t.posts[i]] 0 <= i < t.posts.len() implies {
        &&& 1 <= t.posts[i].post_id < t.next_post_id
        &&& t.posts[i].title.len() <= 255
        &&& t.contains_user(t.posts[i].user_id)
    } by {
        if i < s.posts.len() {
            assert(t.posts[i] == s.posts[i]);
            assert(s.contains_user(s.posts[i].user_id));
        } else {
            assert(t.posts[i] == np.row(s.next_post_id));
            assert(s.contains_user(np.user_id));
        }
    }
    assert(t.wf());
    assert(t.posts[t.posts.len() - 1] == np.row(s.next_post_id));
    lemma_post_lookup(t, t.posts.len() - 1);
}

/// A `comments` insert whose two foreign keys are satisfied keeps the
/// store well-formed, and the new row is found under its assigned key.
pub proof fn lemma_insert_comment_wf(s: StoreView, nc: NewCommentView)
    requires
        s.wf(),
        s.next_comment_id < i32::MAX as int,
        s.contains_user(nc.user_id),
        s.contains_post(nc.post_id),
    ensures
        s.insert_comment_tr(nc).wf(),
        s.insert_comment_tr(nc).contains_comment(s.next_comment_id),
        s.insert_comment_tr(nc).comment_row(s.next_comment_id) == nc.row(s.next_comment_id),
{
    let t = s.insert_comment_tr(nc);
    assert forall|i: int, j: int|
        #![trigger t.comments[i], t.comments[j]]
        0 <= i < j < t.comments.len() implies t.comments[i].comment_id
        < t.comments[j].comment_id by {
        if j < s.comments.len() {
            assert(t.comments[i] == s.comments[i] && t.comments[j] == s.comments[j]);
        } else {
            assert(t.comments[i] == s.comments[i] && t.comments[j] == nc.row(s.next_comment_id));
        }
    }
    lemma_contains_user_frame(s, t);
    lemma_contains_post_frame(s, t);
    lemma_contains_comment_after_push(s, t, nc.row(s.next_comment_id));
    assert forall|i: int| #![trigger t.comments[i]] 0 <= i < t.comments.len() implies {
        &&& 1 <= t.comments[i].comment_id < t.next_comment_id
        &&& t.contains_user(t.comments[i].user_id)
        &&& t.contains_post(t.comments[i].post_id)
    } by {
        if i < s.comments.len() {
            assert(t.comments[i] == s.comments[i]);
            assert(s.contains_user(s.comments[i].user_id));
            assert(s.contains_post(s.comments[i].post_id));
        } else {
            assert(t.comments[i] == nc.row(s.next_comment_id));
        }
    }
    assert(t.wf());
    assert(t.comments[t.comments.len() - 1] == nc.row(s.next_comment_id));
    lemma_comment_lookup(t, t.comments.len() - 1);
}

/// Taking out a present, unreferenced `users` row keeps the store
/// well-formed; the key is gone afterwards and every other key is
/// untouched, so the key set shrinks by exactly that key.
pub proof fn lemma_remove_user_wf(s: StoreView, id: int)
    requires
        s.wf(),
        s.contains_user(id),
        !s.user_referenced(id),
    ensures
        s.remove_user_tr(id).wf(),
        !s.remove_user_tr(id).contains_user(id),
        forall|x: int| x != id ==> s.remove_user_tr(id).contains_user(x) == s.contains_user(x),
        s.remove_user_tr(id).user_ids() == s.user_ids().remove(id),
{
    let k = s.user_index(id);
    assert(0 <= k < s.users.len() && s.users[k].user_id == id);
    let t = s.remove_user_tr(id);
    s.users.remove_ensures(k);
    assert forall|w: int| #![trigger t.users[w]] 0 <= w < t.users.len() implies (t.users[w]
        == s.users[if w < k {
        w
    } else {
        w + 1
    }] && t.users[w].user_id != id) by {
        let ow = if w < k { w } else { w + 1 };
        assert(t.users[w] == s.users[ow]);
        if ow < k {
            assert(s.users[ow].user_id < s.users[k].user_id);
        }
        if ow > k {
            assert(s.users[k].user_id < s.users[ow].user_id);
        }
    }
    assert(!t.contains_user(id));
    assert forall|x: int| x != id implies t.contains_user(x) == s.contains_user(x) by {
        if s.contains_user(x) {
            let w = choose|w: int| 0 <= w < s.users.len() && s.users[w].user_id == x;
            if w < k {
                assert(t.users[w] == s.users[w]);
            } else {
                assert(w > k);
                assert(t.users[w - 1] == s.users[w]);
            }
            assert(t.contains_user(x));
        }
        if t.contains_user(x) {
            let w = choose|w: int| 0 <= w < t.users.len() && t.users[w].user_id == x;
            assert(s.contains_user(x));
        }
    }
    assert forall|i: int, j: int|
        #![trigger t.users[i], t.users[j]]
        0 <= i < j < t.users.len() implies t.users[i].user_id < t.users[j].user_id by {
        let oi = if i < k { i } else { i + 1 };
        let oj = if j < k { j } else { j + 1 };
        assert(t.users[i] == s.users[oi] && t.users[j] == s.users[oj]);
        assert(oi < oj);
    }
    lemma_contains_post_frame(s, t);
    lemma_contains_comment_frame(s, t);
    assert forall|i: int| #![trigger t.posts[i]] 0 <= i < t.posts.len() implies t.contains_user(
        t.posts[i].user_id,
    ) by {
        assert(s.contains_user(s.posts[i].user_id));
        assert(s.posts[i].user_id != id);
    }
    assert forall|i: int| #![trigger t.comments[i]] 0 <= i < t.comments.len() implies t.contains_user(
        t.comments[i].user_id,
    ) && t.contains_post(t.comments[i].post_id) by {
        assert(s.contains_user(s.comments[i].user_id));
        assert(s.comments[i].user_id != id);
        assert(s.contains_post(s.comments[i].post_id));
    }
    assert(t.wf());
    assert(t.user_ids() =~= s.user_ids().remove(id));
}

/// The same for a `posts` row no comment references.
pub proof fn lemma_remove_post_wf(s: StoreView, id: int)
    requires
        s.wf(),
        s.contains_post(id),
        !s.post_referenced(id),
    ensures
        s.remove_post_tr(id).wf(),
        !s.remove_post_tr(id).contains_post(id),
        forall|x: int| x != id ==> s.remove_post_tr(id).contains_post(x) == s.contains_post(x),
        s.remove_post_tr(id).post_ids() == s.post_ids().remove(id),
{
    let k = s.post_index(id);
    assert(0 <= k < s.posts.len() && s.posts[k].post_id == id);
    let t = s.remove_post_tr(id);
    s.posts.remove_ensures(k);
    assert forall|w: int| #![trigger t.posts[w]] 0 <= w < t.posts.len() implies (t.posts[w]
        == s.posts[if w < k {
        w
    } else {
        w + 1
    }] && t.posts[w].post_id != id) by {
        let ow = if w < k { w } else { w + 1 };
        assert(t.posts[w] == s.posts[ow]);
        if ow < k {
            assert(s.posts[ow].post_id < s.posts[k].post_id);
        }
        if ow > k {
            assert(s.posts[k].post_id < s.posts[ow].post_id);
        }
    }
    assert(!t.contains_post(id));
    assert forall|x: int| x != id implies t.contains_post(x) == s.contains_post(x) by {
        if s.contains_post(x) {
            let w = choose|w: int| 0 <= w < s.posts.len() && s.posts[w].post_id == x;
            if w < k {
                assert(t.posts[w] == s.posts[w]);
            } else {
                assert(w > k);
                assert(t.posts[w - 1] == s.posts[w]);
            }
            assert(t.contains_post(x));
        }
        if t.contains_post(x) {
            let w = choose|w: int| 0 <= w < t.posts.len() && t.posts[w].post_id == x;
            assert(s.contains_post(x));
        }
    }
    assert forall|i: int, j: int|
        #![trigger t.posts[i], t.posts[j]]
        0 <= i < j < t.posts.len() implies t.posts[i].post_id < t.posts[j].post_id by {
        let oi = if i < k { i } else { i + 1 };
        let oj = if j < k { j } else { j + 1 };
        assert(t.posts[i] == s.posts[oi] && t.posts[j] == s.posts[oj]);
        assert(oi < oj);
    }
    lemma_contains_user_frame(s, t);
    lemma_contains_comment_frame(s, t);
    assert forall|i: int| #![trigger t.posts[i]] 0 <= i < t.posts.len() implies t.contains_user(
        t.posts[i].user_id,
    ) by {
        let ow = if i < k { i } else { i + 1 };
        assert(t.posts[i] == s.posts[ow]);
        assert(s.contains_user(s.posts[ow].user_id));
    }
    assert forall|i: int| #![trigger t.comments[i]] 0 <= i < t.comments.len() implies t.contains_user(
        t.comments[i].user_id,
    ) && t.contains_post(t.comments[i].post_id) by {
        assert(s.contains_user(s.comments[i].user_id));
        assert(s.contains_post(s.comments[i].post_id));
        assert(s.comments[i].post_id != id);
    }
    assert(t.wf());
    assert(t.post_ids() =~= s.post_ids().remove(id));
}

/// The same for a `comments` row; nothing references comments, so
/// presence is all that is asked.
pub proof fn lemma_remove_comment_wf(s: StoreView, id: int)
    requires
        s.wf(),
        s.contains_comment(id),
    ensures
        s.remove_comment_tr(id).wf(),
        !s.remove_comment_tr(id).contains_comment(id),
        forall|x: int| x != id ==> s.remove_comment_tr(id).contains_comment(x)
            == s.contains_comment(x),
        s.remove_comment_tr(id).comment_ids() == s.comment_ids().remove(id),
{
    let k = s.comment_index(id);
    assert(0 <= k < s.comments.len() && s.comments[k].comment_id == id);
    let t = s.remove_comment_tr(id);
    s.comments.remove_ensures(k);
    assert forall|w: int| #![trigger t.comments[w]] 0 <= w < t.comments.len() implies (t.comments[w]
        == s.comments[if w < k {
        w
    } else {
        w + 1
    }] && t.comments[w].comment_id != id) by {
        let ow = if w < k { w } else { w + 1 };
        assert(t.comments[w] == s.comments[ow]);
        if ow < k {
            assert(s.comments[ow].comment_id < s.comments[k].comment_id);
        }
        if ow > k {
            assert(s.comments[k].comment_id < s.comments[ow].comment_id);
        }
    }
    assert(!t.contains_comment(id));
    assert forall|x: int| x != id implies t.contains_comment(x) == s.contains_comment(x) by {
        if s.contains_comment(x) {
            let w = choose|w: int| 0 <= w < s.comments.len() && s.comments[w].comment_id == x;
            if w < k {
                assert(t.comments[w] == s.comments[w]);
            } else {
                assert(w > k);
                assert(t.comments[w - 1] == s.comments[w]);
            }
            assert(t.contains_comment(x));
        }
        if t.contains_comment(x) {
            let w = choose|w: int| 0 <= w < t.comments.len() && t.comments[w].comment_id == x;
            assert(s.contains_comment(x));
        }
    }
    assert forall|i: int, j: int|
        #![trigger t.comments[i], t.comments[j]]
        0 <= i < j < t.comments.len() implies t.comments[i].comment_id
        < t.comments[j].comment_id by {
        let oi = if i < k { i } else { i + 1 };
        let oj = if j < k { j } else { j + 1 };
        assert(t.comments[i] == s.comments[oi] && t.comments[j] == s.comments[oj]);
        assert(oi < oj);
    }
    lemma_contains_user_frame(s, t);
    lemma_contains_post_frame(s, t);
    assert forall|i: int| #![trigger t.comments[i]] 0 <= i < t.comments.len() implies t.contains_user(
        t.comments[i].user_id,
    ) && t.contains_post(t.comments[i].post_id) by {
        let ow = if i < k { i } else { i + 1 };
        assert(t.comments[i] == s.comments[ow]);
        assert(s.contains_user(s.comments[ow].user_id));
        assert(s.contains_post(s.comments[ow].post_id));
    }
    assert(t.wf());
    assert(t.comment_ids() =~= s.comment_ids().remove(id));
}


/// Some post or comment referencing a user depends on those two tables
/// alone.
proof fn lemma_user_referenced_frame(s: StoreView, t: StoreView)
    requires
        t.posts == s.posts,
        t.comments == s.comments,
    ensures
        forall|x: int| #[trigger] t.user_referenced(x) == s.user_referenced(x),
{
    assert forall|x: int| #[trigger] t.user_referenced(x) == s.user_referenced(x) by {
        if s.user_referenced(x) {
            if exists|i: int| 0 <= i < s.posts.len() && s.posts[i].user_id == x {
                let w = choose|w: int| 0 <= w < s.posts.len() && s.posts[w].user_id == x;
                assert(t.posts[w] == s.posts[w]);
            } else {
                let w = choose|w: int| 0 <= w < s.comments.len() && s.comments[w].user_id == x;
                assert(t.comments[w] == s.comments[w]);
            }
            assert(t.user_referenced(x));
        }
        if t.user_referenced(x) {
            if exists|i: int| 0 <= i < t.posts.len() && t.posts[i].user_id == x {
                let w = choose|w: int| 0 <= w < t.posts.len() && t.posts[w].user_id == x;
                assert(s.posts[w] == t.posts[w]);
            } else {
                let w = choose|w: int| 0 <= w < t.comments.len() && t.comments[w].user_id == x;
                assert(s.comments[w] == t.comments[w]);
            }
            assert(s.user_referenced(x));
        }
    }
}

/// Some comment referencing a post depends on the `comments` table alone.
proof fn lemma_post_referenced_frame(s: StoreView, t: StoreView)
    requires
        t.comments == s.comments,
    ensures
        forall|x: int| #[trigger] t.post_referenced(x) == s.post_referenced(x),
{
    assert forall|x: int| #[trigger] t.post_referenced(x) == s.post_referenced(x) by {
        if s.post_referenced(x) {
            let w = choose|w: int| 0 <= w < s.comments.len() && s.comments[w].post_id == x;
            assert(t.comments[w] == s.comments[w]);
            assert(t.post_referenced(x));
        }
        if t.post_referenced(x) {
            let w = choose|w: int| 0 <= w < t.comments.len() && t.comments[w].post_id == x;
            assert(s.comments[w] == t.comments[w]);
            assert(s.post_referenced(x));
        }
    }
}

/// No row of a well-formed store references a user key the store has not
/// assigned yet.
proof fn lemma_fresh_user_unreferenced(s: StoreView, id: int)
    requires
        s.wf(),
        id >= s.next_user_id,
    ensures
        !s.user_referenced(id),
{
    if s.user_referenced(id) {
        if exists|i: int| 0 <= i < s.posts.len() && s.posts[i].user_id == id {
            let w = choose|w: int| 0 <= w < s.posts.len() && s.posts[w].user_id == id;
            assert(s.contains_user(id));
            let u = choose|u: int| 0 <= u < s.users.len() && s.users[u].user_id == id;
            assert(s.users[u].user_id < s.next_user_id);
        } else {
            let w = choose|w: int| 0 <= w < s.comments.len() && s.comments[w].user_id == id;
            assert(s.contains_user(id));
            let u = choose|u: int| 0 <= u < s.users.len() && s.users[u].user_id == id;
            assert(s.users[u].user_id < s.next_user_id);
        }
    }
}

/// No comment of a well-formed store references a post key the store has
/// not assigned yet.
proof fn lemma_fresh_post_unreferenced(s: StoreView, id: int)
    requires
        s.wf(),
        id >= s.next_post_id,
    ensures
        !s.post_referenced(id),
{
    if s.post_referenced(id) {
        let w = choose|w: int| 0 <= w < s.comments.len() && s.comments[w].post_id == id;
        assert(s.contains_post(id));
        let u = choose|u: int| 0 <= u < s.posts.len() && s.posts[u].post_id == id;
        assert(s.posts[u].post_id < s.next_post_id);
    }
}

/// Creating a user and then deleting the key the store just assigned is
/// always allowed — nothing can reference the fresh row yet — and it
/// restores every table; only the key counter keeps its advance, since
/// keys are never reused.
pub proof fn lemma_create_then_delete_user(s: StoreView, nu: NewUserView)
    requires
        s.wf(),
        nu.bounded(),
        s.next_user_id < i32::MAX as int,
    ensures
        ({
            let t = s.insert_user_tr(nu);
            let id = s.next_user_id;
            let d = t.delete_user_tr(id);
            &&& t.contains_user(id)
            &&& !t.user_referenced(id)
            &&& d.wf()
            &&& !d.contains_user(id)
            &&& d.users == s.users
            &&& d.posts == s.posts
            &&& d.comments == s.comments
            &&& d.next_user_id == s.next_user_id + 1
            &&& d.next_post_id == s.next_post_id
            &&& d.next_comment_id == s.next_comment_id
        }),
{
    let t = s.insert_user_tr(nu);
    let id = s.next_user_id;
    lemma_insert_user_wf(s, nu);
    lemma_user_referenced_frame(s, t);
    lemma_fresh_user_unreferenced(s, id);
    lemma_user_lookup(t, t.users.len() - 1);
    let d = t.delete_user_tr(id);
    assert(d == t.remove_user_tr(id));
    assert(t.user_index(id) == t.users.len() - 1);
    assert(d.users =~= s.users);
    lemma_remove_user_wf(t, id);
}

/// The same for a post.
pub proof fn lemma_create_then_delete_post(s: StoreView, np: NewPostView)
    requires
        s.wf(),
        np.bounded(),
        s.next_post_id < i32::MAX as int,
        s.contains_user(np.user_id),
    ensures
        ({
            let t = s.insert_post_tr(np);
            let id = s.next_post_id;
            let d = t.delete_post_tr(id);
            &&& t.contains_post(id)
            &&& !t.post_referenced(id)
            &&& d.wf()
            &&& !d.contains_post(id)
            &&& d.users == s.users
            &&& d.posts == s.posts
            &&& d.comments == s.comments
            &&& d.next_user_id == s.next_user_id
            &&& d.next_post_id == s.next_post_id + 1
            &&& d.next_comment_id == s.next_comment_id
        }),
{
    let t = s.insert_post_tr(np);
    let id = s.next_post_id;
    lemma_insert_post_wf(s, np);
    lemma_post_referenced_frame(s, t);
    lemma_fresh_post_unreferenced(s, id);
    lemma_post_lookup(t, t.posts.len() - 1);
    let d = t.delete_post_tr(id);
    assert(d == t.remove_post_tr(id));
    assert(t.post_index(id) == t.posts.len() - 1);
    assert(d.posts =~= s.posts);
    lemma_remove_post_wf(t, id);
}

/// The same for a comment; nothing ever references one.
pub proof fn lemma_create_then_delete_comment(s: StoreView, nc: NewCommentView)
    requires
        s.wf(),
        s.next_comment_id < i32::MAX as int,
        s.contains_user(nc.user_id),
        s.contains_post(nc.post_id),
    ensures
        ({
            let t = s.insert_comment_tr(nc);
            let id = s.next_comment_id;
            let d = t.delete_comment_tr(id);
            &&& t.contains_comment(id)
            &&& d.wf()
            &&& !d.contains_comment(id)
            &&& d.users == s.users
            &&& d.posts == s.posts
            &&& d.comments == s.comments
            &&& d.next_user_id == s.next_user_id
            &&& d.next_post_id == s.next_post_id
            &&& d.next_comment_id == s.next_comment_id + 1
        }),
{
    let t = s.insert_comment_tr(nc);
    let id = s.next_comment_id;
    lemma_insert_comment_wf(s, nc);
    lemma_comment_lookup(t, t.comments.len() - 1);
    let d = t.delete_comment_tr(id);
    assert(d == t.remove_comment_tr(id));
    assert(t.comment_index(id) == t.comments.len() - 1);
    assert(d.comments =~= s.comments);
    lemma_remove_comment_wf(t, id);
}


/// The store after creating one user per element of `items`, in order.
pub open spec fn insert_each_user(s: StoreView, items: Seq<NewUserView>) -> StoreView
    decreases items.len(),
{
    if items.len() == 0 {
        s
    } else {
        insert_each_user(s, items.drop_last()).insert_user_tr(items.last())
    }
}

/// The store after deleting the user keys `hi`, `hi - 1`, ..., `hi - k + 1`,
/// newest first.
pub open spec fn delete_desc_users(s: StoreView, hi: int, k: nat) -> StoreView
    decreases k,
{
    if k == 0 {
        s
    } else {
        delete_desc_users(s.delete_user_tr(hi), hi - 1, (k - 1) as nat)
    }
}

/// A run of user creations appends exactly one row per element, with
/// consecutive keys, and touches nothing else.
pub proof fn lemma_insert_each_user_shape(s: StoreView, items: Seq<NewUserView>)
    requires
        s.wf(),
        forall|i: int| 0 <= i < items.len() ==> (#[trigger] items[i]).bounded(),
        s.next_user_id + items.len() <= i32::MAX as int,
    ensures
        ({
            let t = insert_each_user(s, items);
            &&& t.wf()
            &&& t.posts == s.posts
            &&& t.comments == s.comments
            &&& t.next_post_id == s.next_post_id
            &&& t.next_comment_id == s.next_comment_id
            &&& t.next_user_id == s.next_user_id + items.len()
            &&& t.users.len() == s.users.len() + items.len()
            &&& (forall|i: int| 0 <= i < s.users.len() ==> #[trigger] t.users[i] == s.users[i])
            &&& (forall|j: int|
                0 <= j < items.len() ==> #[trigger] t.users[s.users.len() + j] == items[j].row(
                    s.next_user_id + j,
                ))
        }),
    decreases items.len(),
{
    if items.len() > 0 {
        let prev = insert_each_user(s, items.drop_last());
        lemma_insert_each_user_shape(s, items.drop_last());
        lemma_insert_user_wf(prev, items.last());
        let t = insert_each_user(s, items);
        assert(t == prev.insert_user_tr(items.last()));
        assert forall|j: int| 0 <= j < items.len() implies #[trigger] t.users[s.users.len() + j]
            == items[j].row(s.next_user_id + j) by {
            if j < items.len() - 1 {
                assert(t.users[s.users.len() + j] == prev.users[s.users.len() + j]);
                assert(items.drop_last()[j] == items[j]);
            } else {
                assert(t.users[s.users.len() + j] == items.last().row(prev.next_user_id));
            }
        }
    }
}

/// What a run of user deletions leaves in each table depends only on what
/// the tables held, not on the key counters.
proof fn lemma_delete_desc_users_frame(a: StoreView, b: StoreView, hi: int, k: nat)
    requires
        a.wf(),
        b.wf(),
        a.users == b.users,
        a.posts == b.posts,
        a.comments == b.comments,
    ensures
        ({
            let ra = delete_desc_users(a, hi, k);
            let rb = delete_desc_users(b, hi, k);
            &&& ra.wf()
            &&& rb.wf()
            &&& ra.users == rb.users
            &&& ra.posts == rb.posts
            &&& ra.comments == rb.comments
            &&& ra.next_user_id == a.next_user_id
            &&& ra.next_post_id == a.next_post_id
            &&& ra.next_comment_id == a.next_comment_id
            &&& rb.next_user_id == b.next_user_id
            &&& rb.next_post_id == b.next_post_id
            &&& rb.next_comment_id == b.next_comment_id
        }),
    decreases k,
{
    if k > 0 {
        lemma_contains_user_frame(a, b);
        lemma_user_referenced_frame(a, b);
        let a1 = a.delete_user_tr(hi);
        let b1 = b.delete_user_tr(hi);
        if a.contains_user(hi) && !a.user_referenced(hi) {
            let ia = a.user_index(hi);
            let ib = b.user_index(hi);
            assert(0 <= ia < a.users.len() && a.users[ia].user_id == hi);
            assert(0 <= ib < b.users.len() && b.users[ib].user_id == hi);
            if ia < ib {
                assert(a.users[ia].user_id < a.users[ib].user_id);
            }
            if ib < ia {
                assert(a.users[ib].user_id < a.users[ia].user_id);
            }
            assert(a1.users == b1.users);
            lemma_remove_user_wf(a, hi);
            lemma_remove_user_wf(b, hi);
            lemma_delete_desc_users_frame(a1, b1, hi - 1, (k - 1) as nat);
        } else {
            assert(a1 == a && b1 == b);
            lemma_delete_desc_users_frame(a, b, hi - 1, (k - 1) as nat);
        }
    }
}

/// Round trip over `users`: create one row per element of `items`, then
/// delete the assigned keys newest first. After any number `k` of the
/// deletions, the table holds exactly the original rows plus the rows the
/// first `items.len() - k` elements created — and the next key to delete
/// is still present and unreferenced, so the next deletion affects exactly
/// one row.
pub proof fn lemma_users_roundtrip(s: StoreView, items: Seq<NewUserView>, k: int)
    requires
        s.wf(),
        forall|i: int| 0 <= i < items.len() ==> (#[trigger] items[i]).bounded(),
        s.next_user_id + items.len() <= i32::MAX as int,
        0 <= k <= items.len(),
    ensures
        ({
            let all = insert_each_user(s, items);
            let after = delete_desc_users(all, all.next_user_id - 1, k as nat);
            let kept = insert_each_user(s, items.subrange(0, items.len() - k));
            &&& after.wf()
            &&& after.users == kept.users
            &&& after.user_ids() == kept.user_ids()
            &&& after.posts == s.posts
            &&& after.comments == s.comments
            &&& (k < items.len() ==> after.contains_user(s.next_user_id + items.len() - k - 1)
                && !after.user_referenced(s.next_user_id + items.len() - k - 1))
        }),
    decreases k,
{
    let all = insert_each_user(s, items);
    let after = delete_desc_users(all, all.next_user_id - 1, k as nat);
    let kept = insert_each_user(s, items.subrange(0, items.len() - k));
    lemma_insert_each_user_shape(s, items);
    if k == 0 {
        assert(items.subrange(0, items.len() as int) =~= items);
        assert(after == all && kept == all);
    } else {
        let prev = insert_each_user(s, items.drop_last());
        lemma_insert_each_user_shape(s, items.drop_last());
        assert(all == prev.insert_user_tr(items.last()));
        let hi = all.next_user_id - 1;
        assert(hi == prev.next_user_id);
        lemma_create_then_delete_user(prev, items.last());
        let d = all.delete_user_tr(hi);
        lemma_delete_desc_users_frame(d, prev, hi - 1, (k - 1) as nat);
        lemma_users_roundtrip(s, items.drop_last(), k - 1);
        assert(items.drop_last().subrange(0, items.len() - k) =~= items.subrange(
            0,
            items.len() - k,
        ));
        assert(after == delete_desc_users(d, hi - 1, (k - 1) as nat));
        assert(after.users == kept.users);
    }
    lemma_contains_user_frame(kept, after);
    assert(after.user_ids() =~= kept.user_ids());
    if k < items.len() {
        let target = s.next_user_id + items.len() - k - 1;
        lemma_insert_each_user_shape(s, items.subrange(0, items.len() - k));
        assert(kept.users[s.users.len() + (items.len() - k - 1)] == items.subrange(
            0,
            items.len() - k,
        )[items.len() - k - 1].row(target));
        lemma_user_lookup(kept, s.users.len() + (items.len() - k - 1));
        assert(kept.contains_user(target));
        lemma_user_referenced_frame(s, after);
        lemma_fresh_user_unreferenced(s, target);
    }
}


/// The store after creating one post per element of `items`, in order.
pub open spec fn insert_each_post(s: StoreView, items: Seq<NewPostView>) -> StoreView
    decreases items.len(),
{
    if items.len() == 0 {
        s
    } else {
        insert_each_post(s, items.drop_last()).insert_post_tr(items.last())
    }
}

/// The store after deleting the post keys `hi`, `hi - 1`, ..., `hi - k + 1`,
/// newest first.
pub open spec fn delete_desc_posts(s: StoreView, hi: int, k: nat) -> StoreView
    decreases k,
{
    if k == 0 {
        s
    } else {
        delete_desc_posts(s.delete_post_tr(hi), hi - 1, (k - 1) as nat)
    }
}

/// A run of post creations whose authors are all present appends exactly
/// one row per element, with consecutive keys, and touches nothing else.
pub proof fn lemma_insert_each_post_shape(s: StoreView, items: Seq<NewPostView>)
    requires
        s.wf(),
        forall|i: int| 0 <= i < items.len() ==> (#[trigger] items[i]).bounded(),
        forall|i: int| 0 <= i < items.len() ==> s.contains_user((#[trigger] items[i]).user_id),
        s.next_post_id + items.len() <= i32::MAX as int,
    ensures
        ({
            let t = insert_each_post(s, items);
            &&& t.wf()
            &&& t.users == s.users
            &&& t.comments == s.comments
            &&& t.next_user_id == s.next_user_id
            &&& t.next_comment_id == s.next_comment_id
            &&& t.next_post_id == s.next_post_id + items.len()
            &&& t.posts.len() == s.posts.len() + items.len()
            &&& (forall|i: int| 0 <= i < s.posts.len() ==> #[trigger] t.posts[i] == s.posts[i])
            &&& (forall|j: int|
                0 <= j < items.len() ==> #[trigger] t.posts[s.posts.len() + j] == items[j].row(
                    s.next_post_id + j,
                ))
        }),
    decreases items.len(),
{
    if items.len() > 0 {
        let prev = insert_each_post(s, items.drop_last());
        lemma_insert_each_post_shape(s, items.drop_last());
        lemma_contains_user_frame(s, prev);
        lemma_insert_post_wf(prev, items.last());
        let t = insert_each_post(s, items);
        assert(t == prev.insert_post_tr(items.last()));
        assert forall|j: int| 0 <= j < items.len() implies #[trigger] t.posts[s.posts.len() + j]
            == items[j].row(s.next_post_id + j) by {
            if j < items.len() - 1 {
                assert(t.posts[s.posts.len() + j] == prev.posts[s.posts.len() + j]);
                assert(items.drop_last()[j] == items[j]);
            } else {
                assert(t.posts[s.posts.len() + j] == items.last().row(prev.next_post_id));
            }
        }
    }
}

/// What a run of post deletions leaves in each table depends only on what
/// the tables held, not on the key counters.
proof fn lemma_delete_desc_posts_frame(a: StoreView, b: StoreView, hi: int, k: nat)
    requires
        a.wf(),
        b.wf(),
        a.users == b.users,
        a.posts == b.posts,
        a.comments == b.comments,
    ensures
        ({
            let ra = delete_desc_posts(a, hi, k);
            let rb = delete_desc_posts(b, hi, k);
            &&& ra.wf()
            &&& rb.wf()
            &&& ra.users == rb.users
            &&& ra.posts == rb.posts
            &&& ra.comments == rb.comments
            &&& ra.next_user_id == a.next_user_id
            &&& ra.next_post_id == a.next_post_id
            &&& ra.next_comment_id == a.next_comment_id
            &&& rb.next_user_id == b.next_user_id
            &&& rb.next_post_id == b.next_post_id
            &&& rb.next_comment_id == b.next_comment_id
        }),
    decreases k,
{
    if k > 0 {
        lemma_contains_post_frame(a, b);
        lemma_post_referenced_frame(a, b);
        let a1 = a.delete_post_tr(hi);
        let b1 = b.delete_post_tr(hi);
        if a.contains_post(hi) && !a.post_referenced(hi) {
            let ia = a.post_index(hi);
            let ib = b.post_index(hi);
            assert(0 <= ia < a.posts.len() && a.posts[ia].post_id == hi);
            assert(0 <= ib < b.posts.len() && b.posts[ib].post_id == hi);
            if ia < ib {
                assert(a.posts[ia].post_id < a.posts[ib].post_id);
            }
            if ib < ia {
                assert(a.posts[ib].post_id < a.posts[ia].post_id);
            }
            assert(a1.posts == b1.posts);
            lemma_remove_post_wf(a, hi);
            lemma_remove_post_wf(b, hi);
            lemma_delete_desc_posts_frame(a1, b1, hi - 1, (k - 1) as nat);
        } else {
            assert(a1 == a && b1 == b);
            lemma_delete_desc_posts_frame(a, b, hi - 1, (k - 1) as nat);
        }
    }
}

/// Round trip over `posts`: create one row per element of `items`, then
/// delete the assigned keys newest first. After any number `k` of the
/// deletions, the table holds exactly the original rows plus the rows the
/// first `items.len() - k` elements created — and the next key to delete
/// is still present and unreferenced.
pub proof fn lemma_posts_roundtrip(s: StoreView, items: Seq<NewPostView>, k: int)
    requires
        s.wf(),
        forall|i: int| 0 <= i < items.len() ==> (#[trigger] items[i]).bounded(),
        forall|i: int| 0 <= i < items.len() ==> s.contains_user((#[trigger] items[i]).user_id),
        s.next_post_id + items.len() <= i32::MAX as int,
        0 <= k <= items.len(),
    ensures
        ({
            let all = insert_each_post(s, items);
            let after = delete_desc_posts(all, all.next_post_id - 1, k as nat);
            let kept = insert_each_post(s, items.subrange(0, items.len() - k));
            &&& after.wf()
            &&& after.posts == kept.posts
            &&& after.post_ids() == kept.post_ids()
            &&& after.users == s.users
            &&& after.comments == s.comments
            &&& (k < items.len() ==> after.contains_post(s.next_post_id + items.len() - k - 1)
                && !after.post_referenced(s.next_post_id + items.len() - k - 1))
        }),
    decreases k,
{
    let all = insert_each_post(s, items);
    let after = delete_desc_posts(all, all.next_post_id - 1, k as nat);
    let kept = insert_each_post(s, items.subrange(0, items.len() - k));
    lemma_insert_each_post_shape(s, items);
    if k == 0 {
        assert(items.subrange(0, items.len() as int) =~= items);
        assert(after == all && kept == all);
    } else {
        let prev = insert_each_post(s, items.drop_last());
        lemma_insert_each_post_shape(s, items.drop_last());
        assert(all == prev.insert_post_tr(items.last()));
        let hi = all.next_post_id - 1;
        assert(hi == prev.next_post_id);
        lemma_contains_user_frame(s, prev);
        lemma_create_then_delete_post(prev, items.last());
        let d = all.delete_post_tr(hi);
        lemma_delete_desc_posts_frame(d, prev, hi - 1, (k - 1) as nat);
        lemma_posts_roundtrip(s, items.drop_last(), k - 1);
        assert(items.drop_last().subrange(0, items.len() - k) =~= items.subrange(
            0,
            items.len() - k,
        ));
        assert(after == delete_desc_posts(d, hi - 1, (k - 1) as nat));
        assert(after.posts == kept.posts);
    }
    lemma_contains_post_frame(kept, after);
    assert(after.post_ids() =~= kept.post_ids());
    if k < items.len() {
        let target = s.next_post_id + items.len() - k - 1;
        lemma_insert_each_post_shape(s, items.subrange(0, items.len() - k));
        assert(kept.posts[s.posts.len() + (items.len() - k - 1)] == items.subrange(
            0,
            items.len() - k,
        )[items.len() - k - 1].row(target));
        lemma_post_lookup(kept, s.posts.len() + (items.len() - k - 1));
        assert(kept.contains_post(target));
        lemma_post_referenced_frame(s, after);
        lemma_fresh_post_unreferenced(s, target);
    }
}


/// The store after creating one comment per element of `items`, in order.
pub open spec fn insert_each_comment(s: StoreView, items: Seq<NewCommentView>) -> StoreView
    decreases items.len(),
{
    if items.len() == 0 {
        s
    } else {
        insert_each_comment(s, items.drop_last()).insert_comment_tr(items.last())
    }
}

/// The store after deleting the comment keys `hi`, `hi - 1`, ...,
/// `hi - k + 1`, newest first.
pub open spec fn delete_desc_comments(s: StoreView, hi: int, k: nat) -> StoreView
    decreases k,
{
    if k == 0 {
        s
    } else {
        delete_desc_comments(s.delete_comment_tr(hi), hi - 1, (k - 1) as nat)
    }
}

/// A run of comment creations whose referenced users and posts are all
/// present appends exactly one row per element, with consecutive keys, and
/// touches nothing else.
pub proof fn lemma_insert_each_comment_shape(s: StoreView, items: Seq<NewCommentView>)
    requires
        s.wf(),
        forall|i: int| 0 <= i < items.len() ==> s.contains_user((#[trigger] items[i]).user_id),
        forall|i: int| 0 <= i < items.len() ==> s.contains_post((#[trigger] items[i]).post_id),
        s.next_comment_id + items.len() <= i32::MAX as int,
    ensures
        ({
            let t = insert_each_comment(s, items);
            &&& t.wf()
            &&& t.users == s.users
            &&& t.posts == s.posts
            &&& t.next_user_id == s.next_user_id
            &&& t.next_post_id == s.next_post_id
            &&& t.next_comment_id == s.next_comment_id + items.len()
            &&& t.comments.len() == s.comments.len() + items.len()
            &&& (forall|i: int| 0 <= i < s.comments.len() ==> #[trigger] t.comments[i] == s.comments[i])
            &&& (forall|j: int|
                0 <= j < items.len() ==> #[trigger] t.comments[s.comments.len() + j]
                    == items[j].row(s.next_comment_id + j))
        }),
    decreases items.len(),
{
    if items.len() > 0 {
        let prev = insert_each_comment(s, items.drop_last());
        lemma_insert_each_comment_shape(s, items.drop_last());
        lemma_contains_user_frame(s, prev);
        lemma_contains_post_frame(s, prev);
        lemma_insert_comment_wf(prev, items.last());
        let t = insert_each_comment(s, items);
        assert(t == prev.insert_comment_tr(items.last()));
        assert forall|j: int| 0 <= j < items.len() implies #[trigger] t.comments[s.comments.len()
            + j] == items[j].row(s.next_comment_id + j) by {
            if j < items.len() - 1 {
                assert(t.comments[s.comments.len() + j] == prev.comments[s.comments.len() + j]);
                assert(items.drop_last()[j] == items[j]);
            } else {
                assert(t.comments[s.comments.len() + j] == items.last().row(prev.next_comment_id));
            }
        }
    }
}

/// What a run of comment deletions leaves in each table depends only on
/// what the tables held, not on the key counters.
proof fn lemma_delete_desc_comments_frame(a: StoreView, b: StoreView, hi: int, k: nat)
    requires
        a.wf(),
        b.wf(),
        a.users == b.users,
        a.posts == b.posts,
        a.comments == b.comments,
    ensures
        ({
            let ra = delete_desc_comments(a, hi, k);
            let rb = delete_desc_comments(b, hi, k);
            &&& ra.wf()
            &&& rb.wf()
            &&& ra.users == rb.users
            &&& ra.posts == rb.posts
            &&& ra.comments == rb.comments
            &&& ra.next_user_id == a.next_user_id
            &&& ra.next_post_id == a.next_post_id
            &&& ra.next_comment_id == a.next_comment_id
            &&& rb.next_user_id == b.next_user_id
            &&& rb.next_post_id == b.next_post_id
            &&& rb.next_comment_id == b.next_comment_id
        }),
    decreases k,
{
    if k > 0 {
        lemma_contains_comment_frame(a, b);
        let a1 = a.delete_comment_tr(hi);
        let b1 = b.delete_comment_tr(hi);
        if a.contains_comment(hi) {
            let ia = a.comment_index(hi);
            let ib = b.comment_index(hi);
            assert(0 <= ia < a.comments.len() && a.comments[ia].comment_id == hi);
            assert(0 <= ib < b.comments.len() && b.comments[ib].comment_id == hi);
            if ia < ib {
                assert(a.comments[ia].comment_id < a.comments[ib].comment_id);
            }
            if ib < ia {
                assert(a.comments[ib].comment_id < a.comments[ia].comment_id);
            }
            assert(a1.comments == b1.comments);
            lemma_remove_comment_wf(a, hi);
            lemma_remove_comment_wf(b, hi);
            lemma_delete_desc_comments_frame(a1, b1, hi - 1, (k - 1) as nat);
        } else {
            assert(a1 == a && b1 == b);
            lemma_delete_desc_comments_frame(a, b, hi - 1, (k - 1) as nat);
        }
    }
}

/// Round trip over `comments`: create one row per element of `items`, then
/// delete the assigned keys newest first. After any number `k` of the
/// deletions, the table holds exactly the original rows plus the rows the
/// first `items.len() - k` elements created — and the next key to delete
/// is still present.
#[verifier::rlimit(100)]
pub proof fn lemma_comments_roundtrip(s: StoreView, items: Seq<NewCommentView>, k: int)
    requires
        s.wf(),
        forall|i: int| 0 <= i < items.len() ==> s.contains_user((#[trigger] items[i]).user_id),
        forall|i: int| 0 <= i < items.len() ==> s.contains_post((#[trigger] items[i]).post_id),
        s.next_comment_id + items.len() <= i32::MAX as int,
        0 <= k <= items.len(),
    ensures
        ({
            let all = insert_each_comment(s, items);
            let after = delete_desc_comments(all, all.next_comment_id - 1, k as nat);
            let kept = insert_each_comment(s, items.subrange(0, items.len() - k));
            &&& after.wf()
            &&& after.comments == kept.comments
            &&& after.comment_ids() == kept.comment_ids()
            &&& after.users == s.users
            &&& after.posts == s.posts
            &&& (k < items.len() ==> after.contains_comment(
                s.next_comment_id + items.len() - k - 1,
            ))
        }),
    decreases k,
{
    let all = insert_each_comment(s, items);
    let after = delete_desc_comments(all, all.next_comment_id - 1, k as nat);
    let kept = insert_each_comment(s, items.subrange(0, items.len() - k));
    lemma_insert_each_comment_shape(s, items);
    if k == 0 {
        assert(items.subrange(0, items.len() as int) =~= items);
        assert(after == all && kept == all);
    } else {
        let prev = insert_each_comment(s, items.drop_last());
        lemma_insert_each_comment_shape(s, items.drop_last());
        assert(all == prev.insert_comment_tr(items.last()));
        let hi = all.next_comment_id - 1;
        assert(hi == prev.next_comment_id);
        lemma_contains_user_frame(s, prev);
        lemma_contains_post_frame(s, prev);
        lemma_create_then_delete_comment(prev, items.last());
        let d = all.delete_comment_tr(hi);
        lemma_delete_desc_comments_frame(d, prev, hi - 1, (k - 1) as nat);
        lemma_comments_roundtrip(s, items.drop_last(), k - 1);
        assert(items.drop_last().subrange(0, items.len() - k) =~= items.subrange(
            0,
            items.len() - k,
        ));
        assert(after == delete_desc_comments(d, hi - 1, (k - 1) as nat));
        assert(after.comments == kept.comments);
    }
    lemma_contains_comment_frame(kept, after);
    assert(after.comment_ids() =~= kept.comment_ids());
    if k < items.len() {
        let target = s.next_comment_id + items.len() - k - 1;
        lemma_insert_each_comment_shape(s, items.subrange(0, items.len() - k));
        assert(kept.comments[s.comments.len() + (items.len() - k - 1)] == items.subrange(
            0,
            items.len() - k,
        )[items.len() - k - 1].row(target));
        lemma_comment_lookup(kept, s.comments.len() + (items.len() - k - 1));
        assert(kept.contains_comment(target));
    }
}

} // verus!
