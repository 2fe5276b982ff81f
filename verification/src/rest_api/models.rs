//! Records held by the store and the requests that create, change and list
//! them, each with its mathematical view.

use crate::clock::Timestamp;
use crate::text::optional_text;
use vstd::prelude::*;
use vstd::string::StringExecFns;

verus! {

/// What a user is allowed to do.
#[derive(Debug, Clone, Copy, PartialEq, Eq, Structural)]
pub enum Role {
    Admin,
    User,
    Moderator,
}

impl Role {
    /// The lowercase name under which the role is written out.
    pub open spec fn name(self) -> Seq<char> {
        match self {
            Role::Admin => "admin"@,
            Role::User => "user"@,
            Role::Moderator => "moderator"@,
        }
    }

    /// The role's lowercase name.
    pub fn to_string(&self) -> (s: String)
        ensures
            s@ == self.name(),
    {
        match self {
            Role::Admin => String::from_str("admin"),
            Role::User => String::from_str("user"),
            Role::Moderator => String::from_str("moderator"),
        }
    }
}

/// The role given to a user created without one.
pub fn default_role() -> (r: Role)
    ensures
        r == Role::User,
{
    Role::User
}

/// The page listed when a query names none.
pub fn default_page() -> (p: u64)
    ensures
        p == 1,
{
    1
}

/// The page size used when a query names none.
pub fn default_per_page() -> (p: u64)
    ensures
        p == 20,
{
    20
}

/// Request to create a user.
#[derive(Debug)]
pub struct UserCreate {
    pub name: String,
    pub email: String,
    pub role: Role,
}

/// A [`UserCreate`] with its texts as character sequences.
pub struct UserCreateView {
    pub name: Seq<char>,
    pub email: Seq<char>,
    pub role: Role,
}

impl View for UserCreate {
    type V = UserCreateView;

    open spec fn view(&self) -> UserCreateView {
        UserCreateView { name: self.name@, email: self.email@, role: self.role }
    }
}

/// Request to change a user: only the fields that are present are applied.
#[derive(Debug)]
pub struct UserUpdate {
    pub name: Option<String>,
    pub email: Option<String>,
    pub role: Option<Role>,
}

/// A [`UserUpdate`] with its texts as character sequences.
pub struct UserUpdateView {
    pub name: Option<Seq<char>>,
    pub email: Option<Seq<char>>,
    pub role: Option<Role>,
}

impl View for UserUpdate {
    type V = UserUpdateView;

    open spec fn view(&self) -> UserUpdateView {
        UserUpdateView {
            name: optional_text(self.name),
            email: optional_text(self.email),
            role: self.role,
        }
    }
}

/// A stored user.
#[derive(Debug)]
pub struct User {
    pub id: u64,
    pub name: String,
    pub email: String,
    pub role: Role,
    pub created_at: Timestamp,
    pub updated_at: Timestamp,
}

/// A [`User`] with its texts as character sequences.
pub struct UserView {
    pub id: u64,
    pub name: Seq<char>,
    pub email: Seq<char>,
    pub role: Role,
    pub created_at: Timestamp,
    pub updated_at: Timestamp,
}

impl View for User {
    type V = UserView;

    open spec fn view(&self) -> UserView {
        UserView {
            id: self.id,
            name: self.name@,
            email: self.email@,
            role: self.role,
            created_at: self.created_at,
            updated_at: self.updated_at,
        }
    }
}

impl Clone for User {
    fn clone(&self) -> (r: Self)
        ensures
            r == *self,
    {
        User {
            id: self.id,
            name: self.name.clone(),
            email: self.email.clone(),
            role: self.role,
            created_at: self.created_at,
            updated_at: self.updated_at,
        }
    }
}

impl UserView {
    /// The user as first stored under `id` at the instant `now`.
    pub open spec fn created(id: u64, data: UserCreateView, now: Timestamp) -> UserView {
        UserView {
            id,
            name: data.name,
            email: data.email,
            role: data.role,
            created_at: now,
            updated_at: now,
        }
    }

    /// The user after the fields present in `data` have replaced its own at
    /// the instant `now`.
    pub open spec fn merged(self, data: UserUpdateView, now: Timestamp) -> UserView {
        UserView {
            id: self.id,
            name: match data.name {
                Some(name) => name,
                None => self.name,
            },
            email: match data.email {
                Some(email) => email,
                None => self.email,
            },
            role: match data.role {
                Some(role) => role,
                None => self.role,
            },
            created_at: self.created_at,
            updated_at: now,
        }
    }
}

impl UserCreate {
    /// Builds the user that this request creates under `id` at `now`.
    pub fn into_user(self, id: u64, now: Timestamp) -> (r: User)
        ensures
            r@ == UserView::created(id, self@, now),
    {
        User {
            id,
            name: self.name,
            email: self.email,
            role: self.role,
            created_at: now,
            updated_at: now,
        }
    }
}

impl UserUpdate {
    /// Merges the request into `user`: fields that are present replace the
    /// user's, the others are kept, and the update instant becomes `now`.
    pub fn apply(self, user: &User, now: Timestamp) -> (r: User)
        ensures
            r@ == user@.merged(self@, now),
    {
        let name = match self.name {
            Some(name) => name,
            None => user.name.clone(),
        };
        let email = match self.email {
            Some(email) => email,
            None => user.email.clone(),
        };
        let role = match self.role {
            Some(role) => role,
            None => user.role,
        };
        User { id: user.id, name, email, role, created_at: user.created_at, updated_at: now }
    }
}

/// A user together with the number of posts written by it.
#[derive(Debug)]
pub struct UserResponse {
    pub id: u64,
    pub name: String,
    pub email: String,
    pub role: Role,
    pub post_count: usize,
    pub created_at: Timestamp,
    pub updated_at: Timestamp,
}

/// Request to create a post.
#[derive(Debug)]
pub struct PostCreate {
    pub title: String,
    pub body: String,
    pub published: bool,
}

/// A [`PostCreate`] with its texts as character sequences.
pub struct PostCreateView {
    pub title: Seq<char>,
    pub body: Seq<char>,
    pub published: bool,
}

impl View for PostCreate {
    type V = PostCreateView;

    open spec fn view(&self) -> PostCreateView {
        PostCreateView { title: self.title@, body: self.body@, published: self.published }
    }
}

/// Request to change a post: only the fields that are present are applied.
#[derive(Debug)]
pub struct PostUpdate {
    pub title: Option<String>,
    pub body: Option<String>,
    pub published: Option<bool>,
}

/// A [`PostUpdate`] with its texts as character sequences.
pub struct PostUpdateView {
    pub title: Option<Seq<char>>,
    pub body: Option<Seq<char>>,
    pub published: Option<bool>,
}

impl View for PostUpdate {
    type V = PostUpdateView;

    open spec fn view(&self) -> PostUpdateView {
        PostUpdateView {
            title: optional_text(self.title),
            body: optional_text(self.body),
            published: self.published,
        }
    }
}

/// A stored post.
#[derive(Debug)]
pub struct Post {
    pub id: u64,
    pub author_id: u64,
    pub title: String,
    pub body: String,
    pub published: bool,
    pub created_at: Timestamp,
    pub updated_at: Timestamp,
}

/// A [`Post`] with its texts as character sequences.
pub struct PostView {
    pub id: u64,
    pub author_id: u64,
    pub title: Seq<char>,
    pub body: Seq<char>,
    pub published: bool,
    pub created_at: Timestamp,
    pub updated_at: Timestamp,
}

impl View for Post {
    type V = PostView;

    open spec fn view(&self) -> PostView {
        PostView {
            id: self.id,
            author_id: self.author_id,
            title: self.title@,
            body: self.body@,
            published: self.published,
            created_at: self.created_at,
            updated_at: self.updated_at,
        }
    }
}

impl Clone for Post {
    fn clone(&self) -> (r: Self)
        ensures
            r == *self,
    {
        Post {
            id: self.id,
            author_id: self.author_id,
            title: self.title.clone(),
            body: self.body.clone(),
            published: self.published,
            created_at: self.created_at,
            updated_at: self.updated_at,
        }
    }
}

impl PostView {
    /// The post as first stored under `id` for `author_id` at the instant
    /// `now`.
    pub open spec fn created(
        id: u64,
        author_id: u64,
        data: PostCreateView,
        now: Timestamp,
    ) -> PostView {
        PostView {
            id,
            author_id,
            title: data.title,
            body: data.body,
            published: data.published,
            created_at: now,
            updated_at: now,
        }
    }

    /// The post after the fields present in `data` have replaced its own at
    /// the instant `now`.
    pub open spec fn merged(self, data: PostUpdateView, now: Timestamp) -> PostView {
        PostView {
            id: self.id,
            author_id: self.author_id,
            title: match data.title {
                Some(title) => title,
                None => self.title,
            },
            body: match data.body {
                Some(body) => body,
                None => self.body,
            },
            published: match data.published {
                Some(published) => published,
                None => self.published,
            },
            created_at: self.created_at,
            updated_at: now,
        }
    }
}

impl PostCreate {
    /// Builds the post that this request creates under `id` for `author_id`
    /// at `now`.
    pub fn into_post(self, id: u64, author_id: u64, now: Timestamp) -> (r: Post)
        ensures
            r@ == PostView::created(id, author_id, self@, now),
    {
        Post {
            id,
            author_id,
            title: self.title,
            body: self.body,
            published: self.published,
            created_at: now,
            updated_at: now,
        }
    }
}

impl PostUpdate {
    /// Merges the request into `post`: fields that are present replace the
    /// post's, the others are kept, and the update instant becomes `now`.
    pub fn apply(self, post: &Post, now: Timestamp) -> (r: Post)
        ensures
            r@ == post@.merged(self@, now),
    {
        let title = match self.title {
            Some(title) => title,
            None => post.title.clone(),
        };
        let body = match self.body {
            Some(body) => body,
            None => post.body.clone(),
        };
        let published = match self.published {
            Some(published) => published,
            None => post.published,
        };
        Post {
            id: post.id,
            author_id: post.author_id,
            title,
            body,
            published,
            created_at: post.created_at,
            updated_at: now,
        }
    }
}

/// One page of a filtered listing.
#[derive(Debug)]
pub struct PaginatedResponse<T> {
    /// The items of the page, in listing order.
    pub items: Vec<T>,
    /// How many items the filter kept, over all pages.
    pub total: usize,
    /// The page number that was listed, counted from 1.
    pub page: u64,
    /// The page size that was used.
    pub per_page: u64,
    /// How many pages the kept items fill.
    pub pages: u64,
}

/// A [`PaginatedResponse`] with its items by their views and its counts as
/// natural numbers.
pub struct PageView<V> {
    pub items: Seq<V>,
    pub total: nat,
    pub page: nat,
    pub per_page: nat,
    pub pages: nat,
}

impl<T: View> View for PaginatedResponse<T> {
    type V = PageView<T::V>;

    open spec fn view(&self) -> PageView<T::V> {
        PageView {
            items: self.items@.map_values(|t: T| t@),
            total: self.total as nat,
            page: self.page as nat,
            per_page: self.per_page as nat,
            pages: self.pages as nat,
        }
    }
}

/// Which page of a listing is asked for. A page number or page size of 0
/// counts as 1.
#[derive(Debug, Clone, Copy)]
pub struct PaginationParams {
    pub page: u64,
    pub per_page: u64,
}

impl PaginationParams {
    /// The page number in effect: at least 1.
    pub open spec fn page_number(self) -> nat {
        if self.page == 0 {
            1
        } else {
            self.page as nat
        }
    }

    /// The page size in effect: at least 1.
    pub open spec fn page_size(self) -> nat {
        if self.per_page == 0 {
            1
        } else {
            self.per_page as nat
        }
    }
}

/// Query for a page of users, optionally narrowed by a search string.
#[derive(Debug)]
pub struct UserListParams {
    pub pagination: PaginationParams,
    pub search: Option<String>,
}

/// A [`UserListParams`] with its search as a character sequence.
pub struct UserListParamsView {
    pub pagination: PaginationParams,
    pub search: Option<Seq<char>>,
}

impl View for UserListParams {
    type V = UserListParamsView;

    open spec fn view(&self) -> UserListParamsView {
        UserListParamsView { pagination: self.pagination, search: optional_text(self.search) }
    }
}

/// Query for a page of posts, optionally narrowed to one author and to
/// published posts.
#[derive(Debug, Clone, Copy)]
pub struct PostListParams {
    pub pagination: PaginationParams,
    pub author_id: Option<u64>,
    pub published: bool,
}

/// The author named when a post is created.
#[derive(Debug, Clone, Copy)]
pub struct CreatePostQuery {
    pub author_id: u64,
}

} // verus!
