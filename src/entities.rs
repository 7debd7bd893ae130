//! The domain entities the use cases act on. Identifiers of user-facing
//! aggregates are UUIDs held as their 128-bit value; lookup entities (tags,
//! reports) use small integers. Timestamps are whole seconds since the Unix
//! epoch, UTC.
use vstd::prelude::*;

use crate::repository::Keyed;
use crate::role::Role;

verus! {

/// Relies on `uuid::Uuid::new_v4` (a random version-4 UUID) and
/// `Uuid::as_u128` (its 128-bit value). Nothing is promised of the value.
#[verifier::external_body]
fn random_id() -> (r: u128) {
    uuid::Uuid::new_v4().as_u128()
}

/// Relies on `chrono::Utc::now` and `DateTime::timestamp`: the current time
/// in whole seconds since the Unix epoch. Nothing is promised of the value.
#[verifier::external_body]
fn now_seconds() -> (r: i64) {
    chrono::Utc::now().timestamp()
}

/// A registered user. The credential hash is opaque here.
#[derive(Debug)]
pub struct User {
    pub id: u128,
    pub name: String,
    pub password: String,
    pub created_at: i64,
    pub updated_at: Option<i64>,
    pub role: Option<Role>,
}

impl User {
    /// A new user with a fresh id, created now, never having changed password.
    pub fn new(name: String, password: String, role: Option<Role>) -> (r: Self)
        ensures
            r.name == name,
            r.password == password,
            r.role == role,
            r.updated_at is None,
    {
        User { id: random_id(), name, password, created_at: now_seconds(), updated_at: None, role }
    }

    pub fn new_from_existing(
        id: u128,
        name: String,
        password: String,
        created_at: i64,
        updated_at: Option<i64>,
        role: Option<Role>,
    ) -> (r: Self)
        ensures
            r == (User { id, name, password, created_at, updated_at, role }),
    {
        User { id, name, password, created_at, updated_at, role }
    }
}

impl Keyed<u128> for User {
    open spec fn key_of(&self) -> u128 {
        self.id
    }

    fn key(&self) -> (r: u128) {
        self.id
    }

    fn has_key(&self, k: &u128) -> (r: bool) {
        self.id == *k
    }

    fn duplicate(&self) -> (r: Self) {
        User {
            id: self.id,
            name: self.name.clone(),
            password: self.password.clone(),
            created_at: self.created_at,
            updated_at: self.updated_at,
            role: self.role,
        }
    }
}

/// A news article.
#[derive(Debug)]
pub struct Article {
    pub id: u128,
    pub author_id: u128,
    pub title: String,
    pub content: String,
    pub cover_url: String,
    pub created_at: i64,
}

impl Article {
    /// A new article with a fresh id, created now.
    pub fn new(author_id: u128, title: String, content: String, cover_url: String) -> (r: Self)
        ensures
            r.author_id == author_id,
            r.title == title,
            r.content == content,
            r.cover_url == cover_url,
    {
        Article { id: random_id(), author_id, title, content, cover_url, created_at: now_seconds() }
    }
}

impl Keyed<u128> for Article {
    open spec fn key_of(&self) -> u128 {
        self.id
    }

    fn key(&self) -> (r: u128) {
        self.id
    }

    fn has_key(&self, k: &u128) -> (r: bool) {
        self.id == *k
    }

    fn duplicate(&self) -> (r: Self) {
        Article {
            id: self.id,
            author_id: self.author_id,
            title: self.title.clone(),
            content: self.content.clone(),
            cover_url: self.cover_url.clone(),
            created_at: self.created_at,
        }
    }
}

/// A reader's comment on an article; an inactive comment is hidden.
#[derive(Debug)]
pub struct Comment {
    pub id: u128,
    pub author_id: u128,
    pub article_id: Option<u128>,
    pub content: String,
    pub is_active: bool,
    pub created_at: i64,
}

/// The comment with its visibility flipped and everything else kept.
pub open spec fn toggled(c: Comment) -> Comment {
    Comment { is_active: !c.is_active, ..c }
}

impl Comment {
    /// A new, visible comment with a fresh id, created now.
    pub fn new(author_id: u128, article_id: Option<u128>, content: String) -> (r: Self)
        ensures
            r.author_id == author_id,
            r.article_id == article_id,
            r.content == content,
            r.is_active,
    {
        Comment { id: random_id(), author_id, article_id, content, is_active: true, created_at: now_seconds() }
    }

    /// Flips the comment between visible and hidden.
    pub fn toggle_visibility(&mut self)
        ensures
            *final(self) == toggled(*old(self)),
    {
        self.is_active = !self.is_active;
    }
}

impl Keyed<u128> for Comment {
    open spec fn key_of(&self) -> u128 {
        self.id
    }

    fn key(&self) -> (r: u128) {
        self.id
    }

    fn has_key(&self, k: &u128) -> (r: bool) {
        self.id == *k
    }

    fn duplicate(&self) -> (r: Self) {
        Comment {
            id: self.id,
            author_id: self.author_id,
            article_id: self.article_id,
            content: self.content.clone(),
            is_active: self.is_active,
            created_at: self.created_at,
        }
    }
}

/// A report filed by a user against a comment.
#[derive(Debug)]
pub struct CommentReport {
    pub id: i32,
    pub comment_id: u128,
    pub user_id: u128,
    pub message: String,
    pub solved_by: Option<u128>,
    pub created_at: i64,
}

impl CommentReport {
    pub fn new_from_existing(
        id: i32,
        comment_id: u128,
        user_id: u128,
        message: String,
        solved_by: Option<u128>,
        created_at: i64,
    ) -> (r: Self)
        ensures
            r == (CommentReport { id, comment_id, user_id, message, solved_by, created_at }),
    {
        CommentReport { id, comment_id, user_id, message, solved_by, created_at }
    }
}

impl Keyed<i32> for CommentReport {
    open spec fn key_of(&self) -> i32 {
        self.id
    }

    fn key(&self) -> (r: i32) {
        self.id
    }

    fn has_key(&self, k: &i32) -> (r: bool) {
        self.id == *k
    }

    fn duplicate(&self) -> (r: Self) {
        CommentReport {
            id: self.id,
            comment_id: self.comment_id,
            user_id: self.user_id,
            message: self.message.clone(),
            solved_by: self.solved_by,
            created_at: self.created_at,
        }
    }
}

/// A label that articles can be filed under.
#[derive(Debug)]
pub struct ArticleTag {
    pub id: i32,
    pub value: String,
}

impl ArticleTag {
    pub fn new_from_existing(id: i32, value: String) -> (r: Self)
        ensures
            r == (ArticleTag { id, value }),
    {
        ArticleTag { id, value }
    }
}

impl Keyed<i32> for ArticleTag {
    open spec fn key_of(&self) -> i32 {
        self.id
    }

    fn key(&self) -> (r: i32) {
        self.id
    }

    fn has_key(&self, k: &i32) -> (r: bool) {
        self.id == *k
    }

    fn duplicate(&self) -> (r: Self) {
        ArticleTag { id: self.id, value: self.value.clone() }
    }
}

/// A comment together with the user who wrote it.
#[derive(Debug)]
pub struct CommentWithAuthor {
    pub id: u128,
    pub article_id: Option<u128>,
    pub content: String,
    pub is_active: bool,
    pub created_at: i64,
    pub author: User,
}

impl CommentWithAuthor {
    /// A new, visible comment with a fresh id, created now.
    pub fn new(article_id: Option<u128>, content: String, author: User) -> (r: Self)
        ensures
            r.article_id == article_id,
            r.content == content,
            r.author == author,
            r.is_active,
    {
        CommentWithAuthor { id: random_id(), article_id, content, is_active: true, created_at: now_seconds(), author }
    }

    pub fn new_from_existing(
        id: u128,
        article_id: Option<u128>,
        content: String,
        is_active: bool,
        created_at: i64,
        author: User,
    ) -> (r: Self)
        ensures
            r == (CommentWithAuthor { id, article_id, content, is_active, created_at, author }),
    {
        CommentWithAuthor { id, article_id, content, is_active, created_at, author }
    }
}

impl Keyed<u128> for CommentWithAuthor {
    open spec fn key_of(&self) -> u128 {
        self.id
    }

    fn key(&self) -> (r: u128) {
        self.id
    }

    fn has_key(&self, k: &u128) -> (r: bool) {
        self.id == *k
    }

    fn duplicate(&self) -> (r: Self) {
        CommentWithAuthor {
            id: self.id,
            article_id: self.article_id,
            content: self.content.clone(),
            is_active: self.is_active,
            created_at: self.created_at,
            author: self.author.duplicate(),
        }
    }
}

} // verus!
