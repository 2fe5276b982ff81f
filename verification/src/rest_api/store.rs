//! The store: users and posts under sequential identifiers.

use crate::clock::{utc_now, Timestamp};
use crate::rest_api::error::{AppError, AppErrorView};
use crate::rest_api::listing::{
    accepted_keys, is_walk, lemma_listing_of_walk, listing, post_filter, post_matches,
    post_views, select_posts, select_users, user_filter, user_matches, user_views, walked,
};
use crate::rest_api::models::{
    PageView, PaginatedResponse, Post, PostCreate, PostCreateView, PostListParams, PostUpdate,
    PostUpdateView, PostView, User, UserCreate, UserCreateView, UserListParams,
    UserListParamsView, UserUpdate, UserUpdateView, UserView,
};
use std::collections::HashMap;
use vstd::std_specs::hash::spec_hash_map_iter;
use vstd::std_specs::iter::IteratorSpec;
use vstd::prelude::*;

verus! {

broadcast use vstd::std_specs::hash::group_hash_axioms;

/// All users and posts of one process, with the identifiers to assign next.
pub struct Store {
    users: HashMap<u64, User>,
    posts: HashMap<u64, Post>,
    next_user_id: u64,
    next_post_id: u64,
}

/// The store as mathematics: two finite maps from identifier to record and
/// two counters.
pub struct StoreView {
    pub users: Map<u64, UserView>,
    pub posts: Map<u64, PostView>,
    pub next_user_id: u64,
    pub next_post_id: u64,
}

impl StoreView {
    /// The store before anything was created.
    pub open spec fn empty() -> StoreView {
        StoreView { users: Map::empty(), posts: Map::empty(), next_user_id: 1, next_post_id: 1 }
    }

    /// Every record is filed under its own identifier, identifiers start at
    /// 1, and each counter lies above every identifier in use.
    pub open spec fn wf(self) -> bool {
        &&& self.users.dom().finite()
        &&& self.posts.dom().finite()
        &&& self.next_user_id >= 1
        &&& self.next_post_id >= 1
        &&& forall|id: u64| #[trigger]
            self.users.contains_key(id) ==> self.users[id].id == id && 1 <= id
                < self.next_user_id
        &&& forall|id: u64| #[trigger]
            self.posts.contains_key(id) ==> self.posts[id].id == id && 1 <= id
                < self.next_post_id
    }

    /// Looking up the user `id`.
    pub open spec fn get_user(self, id: u64) -> Result<UserView, AppErrorView> {
        if self.users.contains_key(id) {
            Ok(self.users[id])
        } else {
            Err(AppErrorView::user_not_found(id))
        }
    }

    /// Creating a user at `now`: the store afterwards and the new user, which
    /// takes the next user identifier.
    pub open spec fn create_user(self, data: UserCreateView, now: Timestamp) -> (
        StoreView,
        UserView,
    ) {
        let user = UserView::created(self.next_user_id, data, now);
        (
            StoreView {
                users: self.users.insert(user.id, user),
                next_user_id: (self.next_user_id + 1) as u64,
                ..self
            },
            user,
        )
    }

    /// Merging `data` into the user `id` at `now`: the store afterwards and
    /// the user as stored, or the unchanged store and the failure.
    pub open spec fn update_user(self, id: u64, data: UserUpdateView, now: Timestamp) -> (
        StoreView,
        Result<UserView, AppErrorView>,
    ) {
        if self.users.contains_key(id) {
            let user = self.users[id].merged(data, now);
            (StoreView { users: self.users.insert(id, user), ..self }, Ok(user))
        } else {
            (self, Err(AppErrorView::user_not_found(id)))
        }
    }

    /// Removing the user `id`: the store without it, posts untouched, or the
    /// unchanged store and the failure.
    pub open spec fn delete_user(self, id: u64) -> (StoreView, Result<(), AppErrorView>) {
        if self.users.contains_key(id) {
            (StoreView { users: self.users.remove(id), ..self }, Ok(()))
        } else {
            (self, Err(AppErrorView::user_not_found(id)))
        }
    }

    /// Looking up the post `id`.
    pub open spec fn get_post(self, id: u64) -> Result<PostView, AppErrorView> {
        if self.posts.contains_key(id) {
            Ok(self.posts[id])
        } else {
            Err(AppErrorView::post_not_found(id))
        }
    }

    /// Creating a post for `author_id` at `now`: the store afterwards and the
    /// new post, which takes the next post identifier, or, where no user
    /// `author_id` exists, the unchanged store and the failure.
    pub open spec fn create_post(self, author_id: u64, data: PostCreateView, now: Timestamp) -> (
        StoreView,
        Result<PostView, AppErrorView>,
    ) {
        if self.users.contains_key(author_id) {
            let post = PostView::created(self.next_post_id, author_id, data, now);
            (
                StoreView {
                    posts: self.posts.insert(post.id, post),
                    next_post_id: (self.next_post_id + 1) as u64,
                    ..self
                },
                Ok(post),
            )
        } else {
            (self, Err(AppErrorView::author_not_found(author_id)))
        }
    }

    /// Merging `data` into the post `id` at `now`: the store afterwards and
    /// the post as stored, or the unchanged store and the failure.
    pub open spec fn update_post(self, id: u64, data: PostUpdateView, now: Timestamp) -> (
        StoreView,
        Result<PostView, AppErrorView>,
    ) {
        if self.posts.contains_key(id) {
            let post = self.posts[id].merged(data, now);
            (StoreView { posts: self.posts.insert(id, post), ..self }, Ok(post))
        } else {
            (self, Err(AppErrorView::post_not_found(id)))
        }
    }

    /// Removing the post `id`: the store without it, or the unchanged store
    /// and the failure.
    pub open spec fn delete_post(self, id: u64) -> (StoreView, Result<(), AppErrorView>) {
        if self.posts.contains_key(id) {
            (StoreView { posts: self.posts.remove(id), ..self }, Ok(()))
        } else {
            (self, Err(AppErrorView::post_not_found(id)))
        }
    }

    /// The page of users that a query gets when the store is walked in the
    /// order `keys`.
    pub open spec fn list_users(self, keys: Seq<u64>, params: UserListParamsView) -> PageView<
        UserView,
    > {
        listing(walked(keys, self.users), user_filter(params.search), params.pagination)
    }

    /// The page of posts that a query gets when the store is walked in the
    /// order `keys`.
    pub open spec fn list_posts(self, keys: Seq<u64>, params: PostListParams) -> PageView<
        PostView,
    > {
        listing(
            walked(keys, self.posts),
            post_filter(params.author_id, params.published),
            params.pagination,
        )
    }
}

/// The outcome of an operation, each side by its view.
pub open spec fn outcome<T: View>(r: Result<T, AppError>) -> Result<T::V, AppErrorView> {
    match r {
        Ok(value) => Ok(value@),
        Err(e) => Err(e@),
    }
}

/// The outcome of an operation that returns nothing on success.
pub open spec fn unit_outcome(r: Result<(), AppError>) -> Result<(), AppErrorView> {
    match r {
        Ok(_) => Ok(()),
        Err(e) => Err(e@),
    }
}

impl View for Store {
    type V = StoreView;

    closed spec fn view(&self) -> StoreView {
        StoreView {
            users: self.users@.map_values(|u: User| u@),
            posts: self.posts@.map_values(|p: Post| p@),
            next_user_id: self.next_user_id,
            next_post_id: self.next_post_id,
        }
    }
}

impl Store {
    /// The invariant of the store, stated of its view.
    pub open spec fn wf(&self) -> bool {
        self@.wf()
    }

    /// An empty store whose first user and first post will get identifier 1.
    pub fn new() -> (s: Store)
        ensures
            s@ == StoreView::empty(),
            s.wf(),
    {
        let s = Store {
            users: HashMap::new(),
            posts: HashMap::new(),
            next_user_id: 1,
            next_post_id: 1,
        };
        assert(s@.users =~= Map::empty());
        assert(s@.posts =~= Map::empty());
        s
    }

    /// The identifier that the next created user gets.
    pub fn next_user_id(&self) -> (id: u64)
        ensures
            id == self@.next_user_id,
    {
        self.next_user_id
    }

    /// The identifier that the next created post gets.
    pub fn next_post_id(&self) -> (id: u64)
        ensures
            id == self@.next_post_id,
    {
        self.next_post_id
    }

    /// Creates a user at the instant `now`: it gets the next user identifier
    /// and is stored under it.
    pub fn create_user_at(&mut self, data: UserCreate, now: Timestamp) -> (user: User)
        requires
            old(self).wf(),
            old(self)@.next_user_id < u64::MAX,
        ensures
            final(self).wf(),
            (final(self)@, user@) == old(self)@.create_user(data@, now),
    {
        let id = self.next_user_id;
        self.next_user_id = id + 1;
        let user = data.into_user(id, now);
        self.users.insert(id, user.clone());
        assert(self@.users =~= old(self)@.users.insert(id, user@));
        user
    }

    /// Creates a user at the current time.
    pub fn create_user(&mut self, data: UserCreate) -> (user: User)
        requires
            old(self).wf(),
            old(self)@.next_user_id < u64::MAX,
        ensures
            final(self).wf(),
            exists|now: Timestamp|
                (final(self)@, user@) == #[trigger] old(self)@.create_user(data@, now),
    {
        let now = utc_now();
        self.create_user_at(data, now)
    }

    /// Looks up the user `id`.
    pub fn get_user(&self, id: u64) -> (r: Result<&User, AppError>)
        ensures
            outcome(r) == self@.get_user(id),
    {
        match self.users.get(&id) {
            Some(user) => Ok(user),
            None => Err(AppError::user_not_found(id)),
        }
    }

    /// Lists users as `params` asks. The store is walked in an order of its
    /// own choosing, each user once; the users that pass the search are
    /// counted in that order and the requested page of them is returned.
    pub fn list_users(&self, params: &UserListParams) -> (r: PaginatedResponse<User>)
        requires
            self.wf(),
        ensures
            exists|keys: Seq<u64>|
                is_walk(keys, self@.users) && r@ == #[trigger] self@.list_users(keys, params@),
            r.total == accepted_keys(self@.users, user_filter(params@.search)).len(),
            params.search is None ==> r.total == self@.users.dom().len(),
            params.search matches Some(q) && q@.len() == 0 ==> r.total == self@.users.dom().len(),
            forall|i: int|
                0 <= i < r.items@.len() ==> {
                    let user = (#[trigger] r.items@[i])@;
                    &&& user_matches(user, params@.search)
                    &&& self@.get_user(user.id) == Ok::<UserView, AppErrorView>(user)
                },
    {
        let (all, Ghost(keys)) = walk(&self.users);
        proof {
            assert forall|j: int| 0 <= j < keys.len() implies (#[trigger] all@[j])@
                == self@.users[keys[j]] by {
                assert(keys.contains(keys[j]));
            }
            assert(user_views(all@) =~= walked(keys, self@.users));
            keys.unique_seq_to_set();
            assert(keys.to_set() =~= self@.users.dom());
        }
        let r = select_users(&all, params);
        proof {
            let keep = user_filter(params@.search);
            assert(r@ == self@.list_users(keys, params@));
            lemma_listing_of_walk(keys, self@.users, keep, params.pagination);
            if params.search is None {
                assert(accepted_keys(self@.users, keep) =~= self@.users.dom());
            }
            assert forall|i: int| 0 <= i < r.items@.len() implies {
                let user = (#[trigger] r.items@[i])@;
                &&& user_matches(user, params@.search)
                &&& self@.get_user(user.id) == Ok::<UserView, AppErrorView>(user)
            } by {
                assert(r@.items[i] == r.items@[i]@);
            }
        }
        r
    }

    /// Merges `data` into the user `id` at the instant `now` and returns the
    /// user as stored afterwards. Fails, changing nothing, where no such user
    /// exists.
    pub fn update_user_at(&mut self, id: u64, data: UserUpdate, now: Timestamp) -> (r: Result<
        User,
        AppError,
    >)
        requires
            old(self).wf(),
        ensures
            final(self).wf(),
            (final(self)@, outcome(r)) == old(self)@.update_user(id, data@, now),
    {
        let updated = match self.users.get(&id) {
            Some(user) => data.apply(user, now),
            None => {
                return Err(AppError::user_not_found(id));
            },
        };
        assert(old(self)@.users.contains_key(id) && updated@.id == id);
        self.users.insert(id, updated.clone());
        assert(self@.users =~= old(self)@.users.insert(id, updated@));
        Ok(updated)
    }

    /// Merges `data` into the user `id` at the current time.
    pub fn update_user(&mut self, id: u64, data: UserUpdate) -> (r: Result<User, AppError>)
        requires
            old(self).wf(),
        ensures
            final(self).wf(),
            r is Ok <==> old(self)@.users.contains_key(id),
            exists|now: Timestamp|
                (final(self)@, outcome(r)) == #[trigger] old(self)@.update_user(id, data@, now),
    {
        let now = utc_now();
        self.update_user_at(id, data, now)
    }

    /// Removes the user `id`. Posts of that user stay in the store. Fails,
    /// changing nothing, where no such user exists.
    pub fn delete_user(&mut self, id: u64) -> (r: Result<(), AppError>)
        requires
            old(self).wf(),
        ensures
            final(self).wf(),
            (final(self)@, unit_outcome(r)) == old(self)@.delete_user(id),
    {
        match self.users.remove(&id) {
            Some(_) => {
                assert(self@.users =~= old(self)@.users.remove(id));
                Ok(())
            },
            None => {
                assert(self@.users =~= old(self)@.users);
                Err(AppError::user_not_found(id))
            },
        }
    }

    /// Creates a post for `author_id` at the instant `now`: it gets the next
    /// post identifier and is stored under it. Fails, changing nothing, where
    /// no user `author_id` exists.
    pub fn create_post_at(&mut self, author_id: u64, data: PostCreate, now: Timestamp) -> (r:
        Result<Post, AppError>)
        requires
            old(self).wf(),
            old(self)@.users.contains_key(author_id) ==> old(self)@.next_post_id < u64::MAX,
        ensures
            final(self).wf(),
            (final(self)@, outcome(r)) == old(self)@.create_post(author_id, data@, now),
    {
        if !self.users.contains_key(&author_id) {
            return Err(AppError::author_not_found(author_id));
        }
        let id = self.next_post_id;
        self.next_post_id = id + 1;
        let post = data.into_post(id, author_id, now);
        self.posts.insert(id, post.clone());
        assert(self@.posts =~= old(self)@.posts.insert(id, post@));
        Ok(post)
    }

    /// Creates a post for `author_id` at the current time.
    pub fn create_post(&mut self, author_id: u64, data: PostCreate) -> (r: Result<Post, AppError>)
        requires
            old(self).wf(),
            old(self)@.users.contains_key(author_id) ==> old(self)@.next_post_id < u64::MAX,
        ensures
            final(self).wf(),
            r is Ok <==> old(self)@.users.contains_key(author_id),
            exists|now: Timestamp|
                (final(self)@, outcome(r)) == #[trigger] old(self)@.create_post(
                    author_id,
                    data@,
                    now,
                ),
    {
        let now = utc_now();
        self.create_post_at(author_id, data, now)
    }

    /// Looks up the post `id`.
    pub fn get_post(&self, id: u64) -> (r: Result<&Post, AppError>)
        ensures
            outcome(r) == self@.get_post(id),
    {
        match self.posts.get(&id) {
            Some(post) => Ok(post),
            None => Err(AppError::post_not_found(id)),
        }
    }

    /// Lists posts as `params` asks. The store is walked in an order of its
    /// own choosing, each post once; the posts that pass the filters are
    /// counted in that order and the requested page of them is returned.
    pub fn list_posts(&self, params: &PostListParams) -> (r: PaginatedResponse<Post>)
        requires
            self.wf(),
        ensures
            exists|keys: Seq<u64>|
                is_walk(keys, self@.posts) && r@ == #[trigger] self@.list_posts(keys, *params),
            r.total == accepted_keys(
                self@.posts,
                post_filter(params.author_id, params.published),
            ).len(),
            forall|i: int|
                0 <= i < r.items@.len() ==> {
                    let post = (#[trigger] r.items@[i])@;
                    &&& post_matches(post, params.author_id, params.published)
                    &&& self@.get_post(post.id) == Ok::<PostView, AppErrorView>(post)
                },
    {
        let (all, Ghost(keys)) = walk(&self.posts);
        proof {
            assert forall|j: int| 0 <= j < keys.len() implies (#[trigger] all@[j])@
                == self@.posts[keys[j]] by {
                assert(keys.contains(keys[j]));
            }
            assert(post_views(all@) =~= walked(keys, self@.posts));
        }
        let r = select_posts(&all, params);
        proof {
            let keep = post_filter(params.author_id, params.published);
            assert(r@ == self@.list_posts(keys, *params));
            lemma_listing_of_walk(keys, self@.posts, keep, params.pagination);
            assert forall|i: int| 0 <= i < r.items@.len() implies {
                let post = (#[trigger] r.items@[i])@;
                &&& post_matches(post, params.author_id, params.published)
                &&& self@.get_post(post.id) == Ok::<PostView, AppErrorView>(post)
            } by {
                assert(r@.items[i] == r.items@[i]@);
            }
        }
        r
    }

    /// Merges `data` into the post `id` at the instant `now` and returns the
    /// post as stored afterwards. Fails, changing nothing, where no such post
    /// exists.
    pub fn update_post_at(&mut self, id: u64, data: PostUpdate, now: Timestamp) -> (r: Result<
        Post,
        AppError,
    >)
        requires
            old(self).wf(),
        ensures
            final(self).wf(),
            (final(self)@, outcome(r)) == old(self)@.update_post(id, data@, now),
    {
        let updated = match self.posts.get(&id) {
            Some(post) => data.apply(post, now),
            None => {
                return Err(AppError::post_not_found(id));
            },
        };
        assert(old(self)@.posts.contains_key(id) && updated@.id == id);
        self.posts.insert(id, updated.clone());
        assert(self@.posts =~= old(self)@.posts.insert(id, updated@));
        Ok(updated)
    }

    /// Merges `data` into the post `id` at the current time.
    pub fn update_post(&mut self, id: u64, data: PostUpdate) -> (r: Result<Post, AppError>)
        requires
            old(self).wf(),
        ensures
            final(self).wf(),
            r is Ok <==> old(self)@.posts.contains_key(id),
            exists|now: Timestamp|
                (final(self)@, outcome(r)) == #[trigger] old(self)@.update_post(id, data@, now),
    {
        let now = utc_now();
        self.update_post_at(id, data, now)
    }

    /// Removes the post `id`. Fails, changing nothing, where no such post
    /// exists.
    pub fn delete_post(&mut self, id: u64) -> (r: Result<(), AppError>)
        requires
            old(self).wf(),
        ensures
            final(self).wf(),
            (final(self)@, unit_outcome(r)) == old(self)@.delete_post(id),
    {
        match self.posts.remove(&id) {
            Some(_) => {
                assert(self@.posts =~= old(self)@.posts.remove(id));
                Ok(())
            },
            None => {
                assert(self@.posts =~= old(self)@.posts);
                Err(AppError::post_not_found(id))
            },
        }
    }
}

/// Walks the map and returns its values in the order of the walk, with the
/// keys in that order.
fn walk<V>(m: &HashMap<u64, V>) -> (r: (Vec<&V>, Ghost<Seq<u64>>))
    ensures
        is_walk(r.1@, m@),
        r.0@.len() == r.1@.len(),
        forall|j: int| 0 <= j < r.0@.len() ==> *(#[trigger] r.0@[j]) == m@[r.1@[j]],
{
    let mut all: Vec<&V> = Vec::new();
    let ghost mut keys: Seq<u64> = Seq::empty();
    let ghost pairs = spec_hash_map_iter(m).remaining();
    for pair in it: m.iter()
        invariant
            it.seq() == pairs,
            pairs.no_duplicates(),
            all@.len() == it.index(),
            keys.len() == it.index(),
            forall|j: int|
                0 <= j < it.index() ==> keys[j] == *(#[trigger] pairs[j]).0 && *all@[j]
                    == *pairs[j].1,
    {
        proof {
            keys = keys.push(*pair.0);
        }
        all.push(pair.1);
    }
    proof {
        let values = all@.map_values(|v: &V| *v);
        assert forall|j: int| 0 <= j < keys.len() implies m@.contains_key(#[trigger] keys[j])
            && m@[keys[j]] == values[j] by {
            assert(m@.contains_key(*pairs[j].0));
        }
        assert forall|i: int, j: int| 0 <= i < j < keys.len() implies (keys[i], values[i]) != (
            keys[j],
            values[j],
        ) by {
            assert(pairs[i] != pairs[j]);
        }
        lemma_walk(m@, keys, values);
    }
    (all, Ghost(keys))
}

/// A walk over a hash map that yields each of its entries once names every
/// key once, and yields the values filed under those keys.
proof fn lemma_walk<V>(m: Map<u64, V>, keys: Seq<u64>, values: Seq<V>)
    requires
        m.dom().finite(),
        keys.len() == values.len(),
        keys.len() == m.dom().len(),
        forall|j: int|
            0 <= j < keys.len() ==> m.contains_key(#[trigger] keys[j]) && m[keys[j]] == values[j],
        forall|i: int, j: int|
            0 <= i < j < keys.len() ==> (keys[i], values[i]) != (keys[j], values[j]),
    ensures
        is_walk(keys, m),
        values == walked(keys, m),
{
    keys.unique_seq_to_set();
    vstd::set_lib::lemma_subset_equality(keys.to_set(), m.dom());
}

} // verus!
