//! What holds of the store whatever is done with it, proved of its model.

use crate::clock::Timestamp;
use crate::rest_api::error::AppErrorView;
use crate::rest_api::models::{
    PostCreateView, PostUpdateView, PostView, UserCreateView, UserUpdateView, UserView,
};
use crate::rest_api::store::StoreView;
use vstd::prelude::*;

verus! {

/// One change to the store.
pub enum Operation {
    CreateUser(UserCreateView, Timestamp),
    UpdateUser(u64, UserUpdateView, Timestamp),
    DeleteUser(u64),
    CreatePost(u64, PostCreateView, Timestamp),
    UpdatePost(u64, PostUpdateView, Timestamp),
    DeletePost(u64),
}

impl StoreView {
    /// The store after `op`, whether it succeeded or failed.
    pub open spec fn apply(self, op: Operation) -> StoreView {
        match op {
            Operation::CreateUser(data, now) => self.create_user(data, now).0,
            Operation::UpdateUser(id, data, now) => self.update_user(id, data, now).0,
            Operation::DeleteUser(id) => self.delete_user(id).0,
            Operation::CreatePost(author_id, data, now) => self.create_post(
                author_id,
                data,
                now,
            ).0,
            Operation::UpdatePost(id, data, now) => self.update_post(id, data, now).0,
            Operation::DeletePost(id) => self.delete_post(id).0,
        }
    }

    /// Whether the store has an identifier left for `op`, where `op` needs
    /// one.
    pub open spec fn admits(self, op: Operation) -> bool {
        match op {
            Operation::CreateUser(_, _) => self.next_user_id < u64::MAX,
            Operation::CreatePost(author_id, _, _) => self.users.contains_key(author_id)
                ==> self.next_post_id < u64::MAX,
            _ => true,
        }
    }

    /// The store after the operations `ops`, applied first to last.
    pub open spec fn run(self, ops: Seq<Operation>) -> StoreView
        decreases ops.len(),
    {
        if ops.len() == 0 {
            self
        } else {
            self.run(ops.drop_last()).apply(ops.last())
        }
    }

    /// Whether each of `ops` finds an identifier left when its turn comes.
    pub open spec fn admits_all(self, ops: Seq<Operation>) -> bool
        decreases ops.len(),
    {
        ops.len() == 0 || (self.admits_all(ops.drop_last()) && self.run(ops.drop_last()).admits(
            ops.last(),
        ))
    }
}

/// Every operation keeps the invariant of the store and lowers neither
/// counter.
pub proof fn law_operation_keeps_invariant(s: StoreView, op: Operation)
    requires
        s.wf(),
        s.admits(op),
    ensures
        s.apply(op).wf(),
        s.apply(op).next_user_id >= s.next_user_id,
        s.apply(op).next_post_id >= s.next_post_id,
{
}

/// Any run of operations keeps the invariant of the store and lowers neither
/// counter.
pub proof fn law_run_keeps_invariant(s: StoreView, ops: Seq<Operation>)
    requires
        s.wf(),
        s.admits_all(ops),
    ensures
        s.run(ops).wf(),
        s.run(ops).next_user_id >= s.next_user_id,
        s.run(ops).next_post_id >= s.next_post_id,
    decreases ops.len(),
{
    if ops.len() > 0 {
        law_run_keeps_invariant(s, ops.drop_last());
        law_operation_keeps_invariant(s.run(ops.drop_last()), ops.last());
    }
}

/// A created user gets the next identifier, which lies above the identifier
/// of every stored user, and is found under it afterwards.
pub proof fn law_created_user_is_found(s: StoreView, data: UserCreateView, now: Timestamp)
    requires
        s.wf(),
        s.next_user_id < u64::MAX,
    ensures
        ({
            let (after, user) = s.create_user(data, now);
            &&& after.wf()
            &&& user.id == s.next_user_id
            &&& after.next_user_id == user.id + 1
            &&& forall|id: u64| s.users.contains_key(id) ==> id < user.id
            &&& after.get_user(user.id) == Ok::<UserView, AppErrorView>(user)
        }),
{
}

/// User identifiers are never handed out twice: a user created after another,
/// whatever was done in between, deletions included, has the greater
/// identifier.
pub proof fn law_user_identifiers_grow(
    s: StoreView,
    first: UserCreateView,
    first_now: Timestamp,
    between: Seq<Operation>,
    second: UserCreateView,
    second_now: Timestamp,
)
    requires
        s.wf(),
        s.next_user_id < u64::MAX,
        s.create_user(first, first_now).0.admits_all(between),
        s.create_user(first, first_now).0.run(between).next_user_id < u64::MAX,
    ensures
        s.create_user(first, first_now).1.id < s.create_user(first, first_now).0.run(
            between,
        ).create_user(second, second_now).1.id,
{
    law_run_keeps_invariant(s.create_user(first, first_now).0, between);
}

/// Post identifiers are never handed out twice: a post created after another,
/// whatever was done in between, has the greater identifier.
pub proof fn law_post_identifiers_grow(
    s: StoreView,
    first_author: u64,
    first: PostCreateView,
    first_now: Timestamp,
    between: Seq<Operation>,
    second_author: u64,
    second: PostCreateView,
    second_now: Timestamp,
)
    requires
        s.wf(),
        s.next_post_id < u64::MAX,
        s.create_post(first_author, first, first_now).1 is Ok,
        s.create_post(first_author, first, first_now).0.admits_all(between),
        s.create_post(first_author, first, first_now).0.run(between).next_post_id < u64::MAX,
        s.create_post(first_author, first, first_now).0.run(between).create_post(
            second_author,
            second,
            second_now,
        ).1 is Ok,
    ensures
        s.create_post(first_author, first, first_now).1->Ok_0.id < s.create_post(
            first_author,
            first,
            first_now,
        ).0.run(between).create_post(second_author, second, second_now).1->Ok_0.id,
{
    law_run_keeps_invariant(s.create_post(first_author, first, first_now).0, between);
}

/// Once a user is deleted, looking it up fails with the not-found error, and
/// so does deleting it a second time, which changes nothing.
pub proof fn law_deleted_user_is_gone(s: StoreView, id: u64)
    ensures
        ({
            let after = s.delete_user(id).0;
            &&& after.get_user(id) == Err::<UserView, AppErrorView>(
                AppErrorView::user_not_found(id),
            )
            &&& after.delete_user(id) == (
                after,
                Err::<(), AppErrorView>(AppErrorView::user_not_found(id)),
            )
        }),
{
}

/// Once a post is deleted, looking it up fails with the not-found error, and
/// so does deleting it a second time, which changes nothing.
pub proof fn law_deleted_post_is_gone(s: StoreView, id: u64)
    ensures
        ({
            let after = s.delete_post(id).0;
            &&& after.get_post(id) == Err::<PostView, AppErrorView>(
                AppErrorView::post_not_found(id),
            )
            &&& after.delete_post(id) == (
                after,
                Err::<(), AppErrorView>(AppErrorView::post_not_found(id)),
            )
        }),
{
}

/// Deleting a user touches no post: every post is found as before, those of
/// the deleted user too.
pub proof fn law_user_deletion_keeps_posts(s: StoreView, user_id: u64, post_id: u64)
    ensures
        s.delete_user(user_id).0.get_post(post_id) == s.get_post(post_id),
        s.delete_user(user_id).0.next_post_id == s.next_post_id,
{
}

/// Creating a post for an author that is not stored fails as a bad request
/// and leaves the store as it was, the post counter included.
pub proof fn law_post_needs_author(
    s: StoreView,
    author_id: u64,
    data: PostCreateView,
    now: Timestamp,
)
    requires
        !s.users.contains_key(author_id),
    ensures
        s.create_post(author_id, data, now).0 == s,
        s.create_post(author_id, data, now).1 == Err::<PostView, AppErrorView>(
            AppErrorView::author_not_found(author_id),
        ),
        AppErrorView::author_not_found(author_id) is BadRequest,
{
}

/// An update of a user with no field present changes the update instant and
/// nothing else.
pub proof fn law_empty_user_update(user: UserView, now: Timestamp)
    ensures
        user.merged(UserUpdateView { name: None, email: None, role: None }, now) == (UserView {
            updated_at: now,
            ..user
        }),
{
}

/// An update of a post with no field present changes the update instant and
/// nothing else.
pub proof fn law_empty_post_update(post: PostView, now: Timestamp)
    ensures
        post.merged(PostUpdateView { title: None, body: None, published: None }, now) == (
        PostView { updated_at: now, ..post }),
{
}

/// An update changes the one record it names: every other user, and every
/// post, is found as before.
pub proof fn law_user_update_is_local(
    s: StoreView,
    id: u64,
    data: UserUpdateView,
    now: Timestamp,
    other: u64,
    post_id: u64,
)
    requires
        other != id,
    ensures
        s.update_user(id, data, now).0.get_user(other) == s.get_user(other),
        s.update_user(id, data, now).0.get_post(post_id) == s.get_post(post_id),
{
}

} // verus!
