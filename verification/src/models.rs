//! Row models for the three tables and their insertable counterparts.
//!
//! Each fetched row type (`User`, `Post`, `Comment`) is immutable after
//! construction and exposes its columns only through accessor methods; each
//! creatable entity also has an insert model (`NewUser`, `NewPost`,
//! `NewComment`) carrying the caller-supplied columns, without the
//! store-assigned primary key.

use vstd::prelude::*;

verus! {

/// Mathematical image of one `users` row.
pub ghost struct UserView {
    pub user_id: int,
    pub name: Seq<char>,
    pub email: Seq<char>,
    pub password_hash: Seq<char>,
}

/// One row of `users`, as fetched from the store.
pub struct User {
    user_id: i32,
    name: String,
    email: String,
    password_hash: String,
}

impl View for User {
    type V = UserView;

    closed spec fn view(&self) -> UserView {
        UserView {
            user_id: self.user_id as int,
            name: self.name@,
            email: self.email@,
            password_hash: self.password_hash@,
        }
    }
}

impl User {
    pub fn user_id(&self) -> (r: i32)
        ensures
            r as int == self@.user_id,
    {
        self.user_id
    }

    pub fn name(&self) -> (r: &str)
        ensures
            r@ == self@.name,
    {
        self.name.as_str()
    }

    pub fn email(&self) -> (r: &str)
        ensures
            r@ == self@.email,
    {
        self.email.as_str()
    }

    pub fn password_hash(&self) -> (r: &str)
        ensures
            r@ == self@.password_hash,
    {
        self.password_hash.as_str()
    }

    /// Builds the row stored for an insert model once the store has
    /// assigned its key.
    pub(crate) fn from_new(user_id: i32, nu: NewUser) -> (u: User)
        ensures
            u@ == nu@.row(user_id as int),
    {
        User { user_id, name: nu.name, email: nu.email, password_hash: nu.password_hash }
    }

    /// A second owned copy of the row, as a fetch returns one.
    pub(crate) fn clone_row(&self) -> (u: User)
        ensures
            u@ == self@,
    {
        User {
            user_id: self.user_id,
            name: self.name.clone(),
            email: self.email.clone(),
            password_hash: self.password_hash.clone(),
        }
    }
}

/// Mathematical image of one `posts` row.
pub ghost struct PostView {
    pub post_id: int,
    pub title: Seq<char>,
    pub post_body: Seq<char>,
    pub published: bool,
    pub user_id: int,
}

/// One row of `posts`, as fetched from the store.
pub struct Post {
    post_id: i32,
    title: String,
    post_body: String,
    published: bool,
    user_id: i32,
}

impl View for Post {
    type V = PostView;

    closed spec fn view(&self) -> PostView {
        PostView {
            post_id: self.post_id as int,
            title: self.title@,
            post_body: self.post_body@,
            published: self.published,
            user_id: self.user_id as int,
        }
    }
}

impl Post {
    pub fn post_id(&self) -> (r: i32)
        ensures
            r as int == self@.post_id,
    {
        self.post_id
    }

    pub fn title(&self) -> (r: &str)
        ensures
            r@ == self@.title,
    {
        self.title.as_str()
    }

    pub fn post_body(&self) -> (r: &str)
        ensures
            r@ == self@.post_body,
    {
        self.post_body.as_str()
    }

    pub fn published(&self) -> (r: bool)
        ensures
            r == self@.published,
    {
        self.published
    }

    pub fn user_id(&self) -> (r: i32)
        ensures
            r as int == self@.user_id,
    {
        self.user_id
    }

    /// Builds the row stored for an insert model once the store has
    /// assigned its key.
    pub(crate) fn from_new(post_id: i32, np: NewPost) -> (p: Post)
        ensures
            p@ == np@.row(post_id as int),
    {
        Post {
            post_id,
            title: np.title,
            post_body: np.post_body,
            published: np.published,
            user_id: np.user_id,
        }
    }

    /// A second owned copy of the row, as a fetch returns one.
    pub(crate) fn clone_row(&self) -> (p: Post)
        ensures
            p@ == self@,
    {
        Post {
            post_id: self.post_id,
            title: self.title.clone(),
            post_body: self.post_body.clone(),
            published: self.published,
            user_id: self.user_id,
        }
    }
}

/// Mathematical image of one `comments` row.
pub ghost struct CommentView {
    pub comment_id: int,
    pub post_id: int,
    pub user_id: int,
    pub comment_body: Seq<char>,
}

/// One row of `comments`, as fetched from the store.
pub struct Comment {
    comment_id: i32,
    post_id: i32,
    user_id: i32,
    comment_body: String,
}

impl View for Comment {
    type V = CommentView;

    closed spec fn view(&self) -> CommentView {
        CommentView {
            comment_id: self.comment_id as int,
            post_id: self.post_id as int,
            user_id: self.user_id as int,
            comment_body: self.comment_body@,
        }
    }
}

impl Comment {
    pub fn comment_id(&self) -> (r: i32)
        ensures
            r as int == self@.comment_id,
    {
        self.comment_id
    }

    pub fn post_id(&self) -> (r: i32)
        ensures
            r as int == self@.post_id,
    {
        self.post_id
    }

    pub fn user_id(&self) -> (r: i32)
        ensures
            r as int == self@.user_id,
    {
        self.user_id
    }

    pub fn comment_body(&self) -> (r: &str)
        ensures
            r@ == self@.comment_body,
    {
        self.comment_body.as_str()
    }

    /// Builds the row stored for an insert model once the store has
    /// assigned its key.
    pub(crate) fn from_new(comment_id: i32, nc: NewComment) -> (c: Comment)
        ensures
            c@ == nc@.row(comment_id as int),
    {
        Comment {
            comment_id,
            post_id: nc.post_id,
            user_id: nc.user_id,
            comment_body: nc.comment_body,
        }
    }

    /// A second owned copy of the row, as a fetch returns one.
    pub(crate) fn clone_row(&self) -> (c: Comment)
        ensures
            c@ == self@,
    {
        Comment {
            comment_id: self.comment_id,
            post_id: self.post_id,
            user_id: self.user_id,
            comment_body: self.comment_body.clone(),
        }
    }
}

/// Mathematical image of a `users` insert model.
pub ghost struct NewUserView {
    pub name: Seq<char>,
    pub email: Seq<char>,
    pub password_hash: Seq<char>,
}

impl NewUserView {
    /// The row these columns make once the store assigns `user_id`.
    pub open spec fn row(self, user_id: int) -> UserView {
        UserView { user_id, name: self.name, email: self.email, password_hash: self.password_hash }
    }

    /// Every bounded column fits its declared `VARCHAR(255)` width.
    pub open spec fn bounded(self) -> bool {
        &&& self.name.len() <= 255
        &&& self.email.len() <= 255
        &&& self.password_hash.len() <= 255
    }
}

/// Caller-supplied columns of a `users` insert; the key is assigned by the
/// store.
pub struct NewUser {
    pub name: String,
    pub email: String,
    pub password_hash: String,
}

impl View for NewUser {
    type V = NewUserView;

    open spec fn view(&self) -> NewUserView {
        NewUserView { name: self.name@, email: self.email@, password_hash: self.password_hash@ }
    }
}

/// Mathematical image of a `posts` insert model.
pub ghost struct NewPostView {
    pub title: Seq<char>,
    pub post_body: Seq<char>,
    pub published: bool,
    pub user_id: int,
}

impl NewPostView {
    /// The row these columns make once the store assigns `post_id`.
    pub open spec fn row(self, post_id: int) -> PostView {
        PostView {
            post_id,
            title: self.title,
            post_body: self.post_body,
            published: self.published,
            user_id: self.user_id,
        }
    }

    /// Every bounded column fits its declared `VARCHAR(255)` width.
    pub open spec fn bounded(self) -> bool {
        self.title.len() <= 255
    }
}

/// Caller-supplied columns of a `posts` insert; the key is assigned by the
/// store.
pub struct NewPost {
    pub title: String,
    pub post_body: String,
    pub published: bool,
    pub user_id: i32,
}

impl View for NewPost {
    type V = NewPostView;

    open spec fn view(&self) -> NewPostView {
        NewPostView {
            title: self.title@,
            post_body: self.post_body@,
            published: self.published,
            user_id: self.user_id as int,
        }
    }
}

/// Mathematical image of a `comments` insert model.
pub ghost struct NewCommentView {
    pub post_id: int,
    pub user_id: int,
    pub comment_body: Seq<char>,
}

impl NewCommentView {
    /// The row these columns make once the store assigns `comment_id`.
    pub open spec fn row(self, comment_id: int) -> CommentView {
        CommentView {
            comment_id,
            post_id: self.post_id,
            user_id: self.user_id,
            comment_body: self.comment_body,
        }
    }
}

/// Caller-supplied columns of a `comments` insert; the key is assigned by
/// the store.
pub struct NewComment {
    pub user_id: i32,
    pub post_id: i32,
    pub comment_body: String,
}

impl View for NewComment {
    type V = NewCommentView;

    open spec fn view(&self) -> NewCommentView {
        NewCommentView {
            post_id: self.post_id as int,
            user_id: self.user_id as int,
            comment_body: self.comment_body@,
        }
    }
}

} // verus!
