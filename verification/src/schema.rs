//! The relational store itself: the tables `users`, `posts` and `comments`,
//! auto-incrementing key assignment, and enforcement of the declared foreign
//! keys `posts.user_id -> users`, `comments.user_id -> users` and
//! `comments.post_id -> posts`.
//!
//! Each table is kept in ascending key order, so the row with the largest
//! key — the one an insert-then-fetch-latest operation reads back — is the
//! last row. Keys start at 1 and are never reused after a delete.

use vstd::prelude::*;

use crate::models::{
    Comment, CommentView, NewComment, NewCommentView, NewPost, NewPostView, NewUser, NewUserView,
    Post, PostView, User, UserView,
};

verus! {

/// The store's error surface: the one constraint it can report is a foreign
/// key referencing a row that is not there, or a delete that would leave
/// such a reference behind.
#[derive(Debug, PartialEq, Eq, Structural)]
pub enum QueryError {
    ForeignKeyViolation,
}

/// Mathematical image of the whole store: the three tables in key order and
/// the next key each table will assign.
#[verifier::ext_equal]
pub ghost struct StoreView {
    pub users: Seq<UserView>,
    pub posts: Seq<PostView>,
    pub comments: Seq<CommentView>,
    pub next_user_id: int,
    pub next_post_id: int,
    pub next_comment_id: int,
}

impl StoreView {
    /// The store a fresh database presents: empty tables, every counter at 1.
    pub open spec fn empty() -> StoreView {
        StoreView {
            users: Seq::empty(),
            posts: Seq::empty(),
            comments: Seq::empty(),
            next_user_id: 1,
            next_post_id: 1,
            next_comment_id: 1,
        }
    }

    /// Some `users` row carries this key.
    pub open spec fn contains_user(self, id: int) -> bool {
        exists|i: int| 0 <= i < self.users.len() && self.users[i].user_id == id
    }

    /// The position of the `users` row with this key.
    pub open spec fn user_index(self, id: int) -> int {
        choose|i: int| 0 <= i < self.users.len() && self.users[i].user_id == id
    }

    /// The `users` row with this key.
    pub open spec fn user_row(self, id: int) -> UserView {
        self.users[self.user_index(id)]
    }

    /// The set of keys present in `users`.
    pub open spec fn user_ids(self) -> Set<int> {
        Set::new(|id: int| self.contains_user(id))
    }

    /// Some `posts` row carries this key.
    pub open spec fn contains_post(self, id: int) -> bool {
        exists|i: int| 0 <= i < self.posts.len() && self.posts[i].post_id == id
    }

    /// The position of the `posts` row with this key.
    pub open spec fn post_index(self, id: int) -> int {
        choose|i: int| 0 <= i < self.posts.len() && self.posts[i].post_id == id
    }

    /// The `posts` row with this key.
    pub open spec fn post_row(self, id: int) -> PostView {
        self.posts[self.post_index(id)]
    }

    /// The set of keys present in `posts`.
    pub open spec fn post_ids(self) -> Set<int> {
        Set::new(|id: int| self.contains_post(id))
    }

    /// Some `comments` row carries this key.
    pub open spec fn contains_comment(self, id: int) -> bool {
        exists|i: int| 0 <= i < self.comments.len() && self.comments[i].comment_id == id
    }

    /// The position of the `comments` row with this key.
    pub open spec fn comment_index(self, id: int) -> int {
        choose|i: int| 0 <= i < self.comments.len() && self.comments[i].comment_id == id
    }

    /// The `comments` row with this key.
    pub open spec fn comment_row(self, id: int) -> CommentView {
        self.comments[self.comment_index(id)]
    }

    /// The set of keys present in `comments`.
    pub open spec fn comment_ids(self) -> Set<int> {
        Set::new(|id: int| self.contains_comment(id))
    }

    /// Some row of `posts` or `comments` references this user.
    pub open spec fn user_referenced(self, id: int) -> bool {
        ||| exists|i: int| 0 <= i < self.posts.len() && self.posts[i].user_id == id
        ||| exists|i: int| 0 <= i < self.comments.len() && self.comments[i].user_id == id
    }

    /// Some row of `comments` references this post.
    pub open spec fn post_referenced(self, id: int) -> bool {
        exists|i: int| 0 <= i < self.comments.len() && self.comments[i].post_id == id
    }

    /// `users` is in strictly ascending key order, every key lies between 1
    /// and the next key to assign, and every bounded column fits its
    /// declared `VARCHAR(255)` width.
    pub open spec fn users_wf(self) -> bool {
        &&& (forall|i: int, j: int|
            #![trigger self.users[i], self.users[j]]
            0 <= i < j < self.users.len() ==> self.users[i].user_id < self.users[j].user_id)
        &&& (forall|i: int|
            #![trigger self.users[i]]
            0 <= i < self.users.len() ==> {
                &&& 1 <= self.users[i].user_id < self.next_user_id
                &&& self.users[i].name.len() <= 255
                &&& self.users[i].email.len() <= 255
                &&& self.users[i].password_hash.len() <= 255
            })
    }

    /// The same for `posts`, and every row's `user_id` references a `users`
    /// row that is present.
    pub open spec fn posts_wf(self) -> bool {
        &&& (forall|i: int, j: int|
            #![trigger self.posts[i], self.posts[j]]
            0 <= i < j < self.posts.len() ==> self.posts[i].post_id < self.posts[j].post_id)
        &&& (forall|i: int|
            #![trigger self.posts[i]]
            0 <= i < self.posts.len() ==> {
                &&& 1 <= self.posts[i].post_id < self.next_post_id
                &&& self.posts[i].title.len() <= 255
                &&& self.contains_user(self.posts[i].user_id)
            })
    }

    /// The same for `comments`, whose rows reference both a present user
    /// and a present post.
    pub open spec fn comments_wf(self) -> bool {
        &&& (forall|i: int, j: int|
            #![trigger self.comments[i], self.comments[j]]
            0 <= i < j < self.comments.len() ==> self.comments[i].comment_id
                < self.comments[j].comment_id)
        &&& (forall|i: int|
            #![trigger self.comments[i]]
            0 <= i < self.comments.len() ==> {
                &&& 1 <= self.comments[i].comment_id < self.next_comment_id
                &&& self.contains_user(self.comments[i].user_id)
                &&& self.contains_post(self.comments[i].post_id)
            })
    }

    /// Well-formedness of the whole store: every table well-formed and
    /// every counter in the range an `i32` key column can hold.
    pub open spec fn wf(self) -> bool {
        &&& self.users_wf()
        &&& self.posts_wf()
        &&& self.comments_wf()
        &&& 1 <= self.next_user_id <= i32::MAX as int
        &&& 1 <= self.next_post_id <= i32::MAX as int
        &&& 1 <= self.next_comment_id <= i32::MAX as int
    }

    /// The store after a `users` insert: the new row takes the next key and
    /// goes last.
    pub open spec fn insert_user_tr(self, nu: NewUserView) -> StoreView {
        StoreView {
            users: self.users.push(nu.row(self.next_user_id)),
            posts: self.posts,
            comments: self.comments,
            next_user_id: self.next_user_id + 1,
            next_post_id: self.next_post_id,
            next_comment_id: self.next_comment_id,
        }
    }

    /// The store after a `posts` insert.
    pub open spec fn insert_post_tr(self, np: NewPostView) -> StoreView {
        StoreView {
            users: self.users,
            posts: self.posts.push(np.row(self.next_post_id)),
            comments: self.comments,
            next_user_id: self.next_user_id,
            next_post_id: self.next_post_id + 1,
            next_comment_id: self.next_comment_id,
        }
    }

    /// The store after a `comments` insert.
    pub open spec fn insert_comment_tr(self, nc: NewCommentView) -> StoreView {
        StoreView {
            users: self.users,
            posts: self.posts,
            comments: self.comments.push(nc.row(self.next_comment_id)),
            next_user_id: self.next_user_id,
            next_post_id: self.next_post_id,
            next_comment_id: self.next_comment_id + 1,
        }
    }

    /// The store with the `users` row of this key taken out; meaningful
    /// only when the row is present.
    pub open spec fn remove_user_tr(self, id: int) -> StoreView {
        StoreView {
            users: self.users.remove(self.user_index(id)),
            posts: self.posts,
            comments: self.comments,
            next_user_id: self.next_user_id,
            next_post_id: self.next_post_id,
            next_comment_id: self.next_comment_id,
        }
    }

    /// The store with the `posts` row of this key taken out.
    pub open spec fn remove_post_tr(self, id: int) -> StoreView {
        StoreView {
            users: self.users,
            posts: self.posts.remove(self.post_index(id)),
            comments: self.comments,
            next_user_id: self.next_user_id,
            next_post_id: self.next_post_id,
            next_comment_id: self.next_comment_id,
        }
    }

    /// The store with the `comments` row of this key taken out.
    pub open spec fn remove_comment_tr(self, id: int) -> StoreView {
        StoreView {
            users: self.users,
            posts: self.posts,
            comments: self.comments.remove(self.comment_index(id)),
            next_user_id: self.next_user_id,
            next_post_id: self.next_post_id,
            next_comment_id: self.next_comment_id,
        }
    }

    /// What a `users` delete leaves behind: the row goes if it is present
    /// and nothing references it; otherwise the store stands unchanged.
    pub open spec fn delete_user_tr(self, id: int) -> StoreView {
        if self.contains_user(id) && !self.user_referenced(id) {
            self.remove_user_tr(id)
        } else {
            self
        }
    }

    /// What a `posts` delete leaves behind.
    pub open spec fn delete_post_tr(self, id: int) -> StoreView {
        if self.contains_post(id) && !self.post_referenced(id) {
            self.remove_post_tr(id)
        } else {
            self
        }
    }

    /// What a `comments` delete leaves behind; nothing references a
    /// comment, so presence alone decides.
    pub open spec fn delete_comment_tr(self, id: int) -> StoreView {
        if self.contains_comment(id) {
            self.remove_comment_tr(id)
        } else {
            self
        }
    }
}

/// The store: three tables and the next key each will assign.
pub struct Store {
    users: Vec<User>,
    posts: Vec<Post>,
    comments: Vec<Comment>,
    next_user_id: i32,
    next_post_id: i32,
    next_comment_id: i32,
}

impl View for Store {
    type V = StoreView;

    closed spec fn view(&self) -> StoreView {
        StoreView {
            users: self.users@.map_values(|u: User| u@),
            posts: self.posts@.map_values(|p: Post| p@),
            comments: self.comments@.map_values(|c: Comment| c@),
            next_user_id: self.next_user_id as int,
            next_post_id: self.next_post_id as int,
            next_comment_id: self.next_comment_id as int,
        }
    }
}

impl Store {
    /// Opens a fresh, empty store.
    pub fn new() -> (s: Store)
        ensures
            s@ == StoreView::empty(),
            s@.wf(),
    {
        let s = Store {
            users: Vec::new(),
            posts: Vec::new(),
            comments: Vec::new(),
            next_user_id: 1,
            next_post_id: 1,
            next_comment_id: 1,
        };
        proof {
            assert(s@ =~= StoreView::empty());
        }
        s
    }

    /// Position of the `users` row with this key, if it is present.
    fn find_user_index(&self, id: i32) -> (r: Option<usize>)
        ensures
            match r {
                Some(i) => {
                    &&& i < self@.users.len()
                    &&& self@.users[i as int].user_id == id as int
                    &&& self@.contains_user(id as int)
                },
                None => !self@.contains_user(id as int),
            },
    {
        let n = self.users.len();
        let mut i: usize = 0;
        while i < n
            invariant
                n == self.users.len(),
                i <= n,
                self@.users.len() == n,
                forall|j: int| 0 <= j < i ==> self@.users[j].user_id != id as int,
            decreases n - i,
        {
            if self.users[i].user_id() == id {
                return Some(i);
            }
            i = i + 1;
        }
        None
    }

    /// Position of the `posts` row with this key, if it is present.
    fn find_post_index(&self, id: i32) -> (r: Option<usize>)
        ensures
            match r {
                Some(i) => {
                    &&& i < self@.posts.len()
                    &&& self@.posts[i as int].post_id == id as int
                    &&& self@.contains_post(id as int)
                },
                None => !self@.contains_post(id as int),
            },
    {
        let n = self.posts.len();
        let mut i: usize = 0;
        while i < n
            invariant
                n == self.posts.len(),
                i <= n,
                self@.posts.len() == n,
                forall|j: int| 0 <= j < i ==> self@.posts[j].post_id != id as int,
            decreases n - i,
        {
            if self.posts[i].post_id() == id {
                return Some(i);
            }
            i = i + 1;
        }
        None
    }

    /// Position of the `comments` row with this key, if it is present.
    fn find_comment_index(&self, id: i32) -> (r: Option<usize>)
        ensures
            match r {
                Some(i) => {
                    &&& i < self@.comments.len()
                    &&& self@.comments[i as int].comment_id == id as int
                    &&& self@.contains_comment(id as int)
                },
                None => !self@.contains_comment(id as int),
            },
    {
        let n = self.comments.len();
        let mut i: usize = 0;
        while i < n
            invariant
                n == self.comments.len(),
                i <= n,
                self@.comments.len() == n,
                forall|j: int| 0 <= j < i ==> self@.comments[j].comment_id != id as int,
            decreases n - i,
        {
            if self.comments[i].comment_id() == id {
                return Some(i);
            }
            i = i + 1;
        }
        None
    }

    /// Whether a `users` row with this key is present.
    pub(crate) fn has_user(&self, id: i32) -> (b: bool)
        ensures
            b == self@.contains_user(id as int),
    {
        self.find_user_index(id).is_some()
    }

    /// Whether a `posts` row with this key is present.
    pub(crate) fn has_post(&self, id: i32) -> (b: bool)
        ensures
            b == self@.contains_post(id as int),
    {
        self.find_post_index(id).is_some()
    }

    /// Whether some `posts` row references this user.
    fn any_post_by_user(&self, id: i32) -> (b: bool)
        ensures
            b == (exists|i: int|
                0 <= i < self@.posts.len() && self@.posts[i].user_id == id as int),
    {
        let n = self.posts.len();
        let mut i: usize = 0;
        while i < n
            invariant
                n == self.posts.len(),
                i <= n,
                self@.posts.len() == n,
                forall|j: int| 0 <= j < i ==> self@.posts[j].user_id != id as int,
            decreases n - i,
        {
            if self.posts[i].user_id() == id {
                proof {
                    assert(self@.posts[i as int].user_id == id as int);
                }
                return true;
            }
            i = i + 1;
        }
        false
    }

    /// Whether some `comments` row references this user.
    fn any_comment_by_user(&self, id: i32) -> (b: bool)
        ensures
            b == (exists|i: int|
                0 <= i < self@.comments.len() && self@.comments[i].user_id == id as int),
    {
        let n = self.comments.len();
        let mut i: usize = 0;
        while i < n
            invariant
                n == self.comments.len(),
                i <= n,
                self@.comments.len() == n,
                forall|j: int| 0 <= j < i ==> self@.comments[j].user_id != id as int,
            decreases n - i,
        {
            if self.comments[i].user_id() == id {
                proof {
                    assert(self@.comments[i as int].user_id == id as int);
                }
                return true;
            }
            i = i + 1;
        }
        false
    }

    /// Whether some `comments` row references this post.
    fn any_comment_on_post(&self, id: i32) -> (b: bool)
        ensures
            b == (exists|i: int|
                0 <= i < self@.comments.len() && self@.comments[i].post_id == id as int),
    {
        let n = self.comments.len();
        let mut i: usize = 0;
        while i < n
            invariant
                n == self.comments.len(),
                i <= n,
                self@.comments.len() == n,
                forall|j: int| 0 <= j < i ==> self@.comments[j].post_id != id as int,
            decreases n - i,
        {
            if self.comments[i].post_id() == id {
                proof {
                    assert(self@.comments[i as int].post_id == id as int);
                }
                return true;
            }
            i = i + 1;
        }
        false
    }

    /// Executes a single-row `users` insert. The store assigns the next
    /// key; a `users` insert violates no constraint, so it always affects
    /// exactly one row.
    pub(crate) fn insert_user(&mut self, nu: NewUser) -> (count: usize)
        requires
            old(self)@.wf(),
            nu@.bounded(),
            old(self)@.next_user_id < i32::MAX as int,
        ensures
            count == 1,
            final(self)@ == old(self)@.insert_user_tr(nu@),
            final(self)@.wf(),
    {
        let ghost pre = self@;
        let ghost nuv = nu@;
        let id = self.next_user_id;
        self.next_user_id = id + 1;
        let row = User::from_new(id, nu);
        self.users.push(row);
        proof {
            assert(self@.users =~= pre.users.push(nuv.row(id as int)));
            assert(self@ =~= pre.insert_user_tr(nuv));
            crate::laws::lemma_insert_user_wf(pre, nuv);
        }
        1
    }

    /// Executes a single-row `posts` insert. The declared foreign key is
    /// checked: with no `users` row to reference, nothing is inserted.
    pub(crate) fn insert_post(&mut self, np: NewPost) -> (r: Result<usize, QueryError>)
        requires
            old(self)@.wf(),
            np@.bounded(),
            old(self)@.next_post_id < i32::MAX as int,
        ensures
            final(self)@.wf(),
            (!old(self)@.contains_user(np.user_id as int) ==> r == Err::<usize, QueryError>(
                QueryError::ForeignKeyViolation,
            ) && final(self)@ == old(self)@),
            (old(self)@.contains_user(np.user_id as int) ==> r == Ok::<usize, QueryError>(1usize)
                && final(self)@ == old(self)@.insert_post_tr(np@)),
    {
        if !self.has_user(np.user_id) {
            return Err(QueryError::ForeignKeyViolation);
        }
        let ghost pre = self@;
        let ghost npv = np@;
        let id = self.next_post_id;
        self.next_post_id = id + 1;
        let row = Post::from_new(id, np);
        self.posts.push(row);
        proof {
            assert(self@.posts =~= pre.posts.push(npv.row(id as int)));
            assert(self@ =~= pre.insert_post_tr(npv));
            crate::laws::lemma_insert_post_wf(pre, npv);
        }
        Ok(1)
    }

    /// Executes a single-row `comments` insert. Both declared foreign keys
    /// are checked.
    pub(crate) fn insert_comment(&mut self, nc: NewComment) -> (r: Result<usize, QueryError>)
        requires
            old(self)@.wf(),
            old(self)@.next_comment_id < i32::MAX as int,
        ensures
            final(self)@.wf(),
            (!(old(self)@.contains_user(nc.user_id as int) && old(self)@.contains_post(
                nc.post_id as int,
            )) ==> r == Err::<usize, QueryError>(QueryError::ForeignKeyViolation) && final(self)@
                == old(self)@),
            (old(self)@.contains_user(nc.user_id as int) && old(self)@.contains_post(
                nc.post_id as int,
            ) ==> r == Ok::<usize, QueryError>(1usize) && final(self)@
                == old(self)@.insert_comment_tr(nc@)),
    {
        if !self.has_user(nc.user_id) {
            return Err(QueryError::ForeignKeyViolation);
        }
        if !self.has_post(nc.post_id) {
            return Err(QueryError::ForeignKeyViolation);
        }
        let ghost pre = self@;
        let ghost ncv = nc@;
        let id = self.next_comment_id;
        self.next_comment_id = id + 1;
        let row = Comment::from_new(id, nc);
        self.comments.push(row);
        proof {
            assert(self@.comments =~= pre.comments.push(ncv.row(id as int)));
            assert(self@ =~= pre.insert_comment_tr(ncv));
            crate::laws::lemma_insert_comment_wf(pre, ncv);
        }
        Ok(1)
    }

    /// Reads back the `users` row with the largest key: what a fetch
    /// ordered by descending key returns first.
    pub(crate) fn latest_user(&self) -> (u: User)
        requires
            self@.users.len() > 0,
        ensures
            u@ == self@.users.last(),
    {
        let n = self.users.len();
        self.users[n - 1].clone_row()
    }

    /// Reads back the `posts` row with the largest key.
    pub(crate) fn latest_post(&self) -> (p: Post)
        requires
            self@.posts.len() > 0,
        ensures
            p@ == self@.posts.last(),
    {
        let n = self.posts.len();
        self.posts[n - 1].clone_row()
    }

    /// Reads back the `comments` row with the largest key.
    pub(crate) fn latest_comment(&self) -> (c: Comment)
        requires
            self@.comments.len() > 0,
        ensures
            c@ == self@.comments.last(),
    {
        let n = self.comments.len();
        self.comments[n - 1].clone_row()
    }

    /// Executes a `users` delete by key. A missing row affects zero rows
    /// and is no error; a row still referenced by a post or comment cannot
    /// go, or the declared foreign keys would dangle.
    pub(crate) fn remove_user(&mut self, id: i32) -> (r: Result<usize, QueryError>)
        requires
            old(self)@.wf(),
        ensures
            final(self)@.wf(),
            final(self)@ == old(self)@.delete_user_tr(id as int),
            (!old(self)@.contains_user(id as int) ==> r == Ok::<usize, QueryError>(0usize)
                && final(self)@ == old(self)@),
            (old(self)@.contains_user(id as int) && old(self)@.user_referenced(id as int) ==> r
                == Err::<usize, QueryError>(QueryError::ForeignKeyViolation) && final(self)@
                == old(self)@),
            (old(self)@.contains_user(id as int) && !old(self)@.user_referenced(id as int) ==> r
                == Ok::<usize, QueryError>(1usize) && final(self)@ == old(self)@.remove_user_tr(
                id as int,
            ) && !final(self)@.contains_user(id as int)),
    {
        let found = self.find_user_index(id);
        match found {
            None => Ok(0),
            Some(i) => {
                if self.any_post_by_user(id) || self.any_comment_by_user(id) {
                    Err(QueryError::ForeignKeyViolation)
                } else {
                    let ghost pre = self@;
                    self.users.remove(i);
                    proof {
                        crate::laws::lemma_user_lookup(pre, i as int);
                        pre.users.remove_ensures(i as int);
                        assert(self@.users =~= pre.users.remove(i as int));
                        assert(self@ =~= pre.remove_user_tr(id as int));
                        crate::laws::lemma_remove_user_wf(pre, id as int);
                    }
                    Ok(1)
                }
            },
        }
    }

    /// Executes a `posts` delete by key; a row still referenced by a
    /// comment cannot go.
    pub(crate) fn remove_post(&mut self, id: i32) -> (r: Result<usize, QueryError>)
        requires
            old(self)@.wf(),
        ensures
            final(self)@.wf(),
            final(self)@ == old(self)@.delete_post_tr(id as int),
            (!old(self)@.contains_post(id as int) ==> r == Ok::<usize, QueryError>(0usize)
                && final(self)@ == old(self)@),
            (old(self)@.contains_post(id as int) && old(self)@.post_referenced(id as int) ==> r
                == Err::<usize, QueryError>(QueryError::ForeignKeyViolation) && final(self)@
                == old(self)@),
            (old(self)@.contains_post(id as int) && !old(self)@.post_referenced(id as int) ==> r
                == Ok::<usize, QueryError>(1usize) && final(self)@ == old(self)@.remove_post_tr(
                id as int,
            ) && !final(self)@.contains_post(id as int)),
    {
        let found = self.find_post_index(id);
        match found {
            None => Ok(0),
            Some(i) => {
                if self.any_comment_on_post(id) {
                    Err(QueryError::ForeignKeyViolation)
                } else {
                    let ghost pre = self@;
                    self.posts.remove(i);
                    proof {
                        crate::laws::lemma_post_lookup(pre, i as int);
                        pre.posts.remove_ensures(i as int);
                        assert(self@.posts =~= pre.posts.remove(i as int));
                        assert(self@ =~= pre.remove_post_tr(id as int));
                        crate::laws::lemma_remove_post_wf(pre, id as int);
                    }
                    Ok(1)
                }
            },
        }
    }

    /// Executes a `comments` delete by key; nothing references a comment,
    /// so a present row always goes.
    pub(crate) fn remove_comment(&mut self, id: i32) -> (r: Result<usize, QueryError>)
        requires
            old(self)@.wf(),
        ensures
            final(self)@.wf(),
            final(self)@ == old(self)@.delete_comment_tr(id as int),
            (!old(self)@.contains_comment(id as int) ==> r == Ok::<usize, QueryError>(0usize)
                && final(self)@ == old(self)@),
            (old(self)@.contains_comment(id as int) ==> r == Ok::<usize, QueryError>(1usize)
                && final(self)@ == old(self)@.remove_comment_tr(id as int)
                && !final(self)@.contains_comment(id as int)),
    {
        let found = self.find_comment_index(id);
        match found {
            None => Ok(0),
            Some(i) => {
                let ghost pre = self@;
                self.comments.remove(i);
                proof {
                    crate::laws::lemma_comment_lookup(pre, i as int);
                    pre.comments.remove_ensures(i as int);
                    assert(self@.comments =~= pre.comments.remove(i as int));
                    assert(self@ =~= pre.remove_comment_tr(id as int));
                    crate::laws::lemma_remove_comment_wf(pre, id as int);
                }
                Ok(1)
            },
        }
    }
}

} // verus!
