//! Filtering a listing and cutting the requested page out of it.

use crate::rest_api::models::{
    PageView, PaginatedResponse, PaginationParams, Post, PostListParams, PostView, User,
    UserListParams, UserView,
};
use crate::rest_api::pagination::{
    count_pages, effective_page, effective_per_page, page_of, page_window, pages_needed,
    window_end, window_start,
};
use crate::text::{contains, is_substring, lowercase, to_lowercase};
use vstd::prelude::*;

verus! {

/// Whether a user passes the search: with no search every user does, and
/// with one the user's name or email must contain it, letter case aside.
pub open spec fn user_matches(user: UserView, search: Option<Seq<char>>) -> bool {
    match search {
        None => true,
        Some(query) => is_substring(lowercase(query), lowercase(user.name)) || is_substring(
            lowercase(query),
            lowercase(user.email),
        ),
    }
}

/// [`user_matches`] for a fixed search, as a predicate on users.
pub open spec fn user_filter(search: Option<Seq<char>>) -> spec_fn(UserView) -> bool {
    |user: UserView| user_matches(user, search)
}

/// Whether a post passes the filters: it must belong to the author where one
/// is named, and be published where only published posts are asked for.
pub open spec fn post_matches(post: PostView, author_id: Option<u64>, published: bool) -> bool {
    &&& author_id matches Some(author) ==> post.author_id == author
    &&& published ==> post.published
}

/// [`post_matches`] for fixed filters, as a predicate on posts.
pub open spec fn post_filter(author_id: Option<u64>, published: bool) -> spec_fn(PostView) -> bool {
    |post: PostView| post_matches(post, author_id, published)
}

/// The page that a query gets of the records `all`: the records that `keep`
/// accepts are counted, in their given order, and the requested page is cut
/// out of them.
pub open spec fn listing<V>(
    all: Seq<V>,
    keep: spec_fn(V) -> bool,
    pagination: PaginationParams,
) -> PageView<V> {
    let kept = all.filter(keep);
    PageView {
        items: page_of(kept, pagination.page_number(), pagination.page_size()),
        total: kept.len(),
        page: pagination.page_number(),
        per_page: pagination.page_size(),
        pages: pages_needed(kept.len(), pagination.page_size()),
    }
}

/// `keys` names every key of `m` exactly once.
pub open spec fn is_walk<V>(keys: Seq<u64>, m: Map<u64, V>) -> bool {
    &&& keys.no_duplicates()
    &&& forall|k: u64| keys.contains(k) <==> m.contains_key(k)
}

/// The values of `m` in the order in which `keys` names them.
pub open spec fn walked<V>(keys: Seq<u64>, m: Map<u64, V>) -> Seq<V> {
    keys.map_values(|k: u64| m[k])
}

/// The keys of `m` whose record `keep` accepts.
pub open spec fn accepted_keys<V>(m: Map<u64, V>, keep: spec_fn(V) -> bool) -> Set<u64> {
    Set::new(|k: u64| m.contains_key(k) && keep(m[k]))
}

/// Among the keys that `keys` names, those whose record in `m` is accepted.
spec fn kept_keys<V>(keys: Seq<u64>, m: Map<u64, V>, keep: spec_fn(V) -> bool) -> Set<u64> {
    Set::new(|k: u64| keys.contains(k) && keep(m[k]))
}

/// Where `keys` names no key twice, the walk keeps as many records as there
/// are accepted keys among them.
proof fn lemma_kept_count<V>(keys: Seq<u64>, m: Map<u64, V>, keep: spec_fn(V) -> bool)
    requires
        keys.no_duplicates(),
    ensures
        kept_keys(keys, m, keep).finite(),
        walked(keys, m).filter(keep).len() == kept_keys(keys, m, keep).len(),
    decreases keys.len(),
{
    broadcast use vstd::set::group_set_axioms;

    if keys.len() == 0 {
        reveal(Seq::filter);
        assert(kept_keys(keys, m, keep) =~= Set::empty());
    } else {
        let rest = keys.drop_last();
        let last = keys.last();
        lemma_kept_count(rest, m, keep);
        assert(walked(keys, m) =~= walked(rest, m).push(m[last]));
        walked(rest, m).lemma_filter_push(m[last], keep);
        assert forall|k: u64| keys.contains(k) <==> rest.contains(k) || k == last by {
            if keys.contains(k) {
                let i = choose|i: int| 0 <= i < keys.len() && keys[i] == k;
                if i < rest.len() {
                    assert(rest[i] == k);
                }
            }
        }
        if keep(m[last]) {
            assert(kept_keys(keys, m, keep) =~= kept_keys(rest, m, keep).insert(last));
        } else {
            assert(kept_keys(keys, m, keep) =~= kept_keys(rest, m, keep));
        }
    }
}

/// However the map is walked, a listing counts the records of the map that
/// the filter accepts, and every item of its page is such a record.
pub proof fn lemma_listing_of_walk<V>(
    keys: Seq<u64>,
    m: Map<u64, V>,
    keep: spec_fn(V) -> bool,
    pagination: PaginationParams,
)
    requires
        is_walk(keys, m),
    ensures
        accepted_keys(m, keep).finite(),
        listing(walked(keys, m), keep, pagination).total == accepted_keys(m, keep).len(),
        listing(walked(keys, m), keep, pagination).items.len() <= pagination.page_size(),
        forall|i: int|
            0 <= i < listing(walked(keys, m), keep, pagination).items.len() ==> {
                let item = #[trigger] listing(walked(keys, m), keep, pagination).items[i];
                keep(item) && exists|k: u64| #[trigger] m.contains_key(k) && m[k] == item
            },
{
    lemma_kept_count(keys, m, keep);
    assert(kept_keys(keys, m, keep) =~= accepted_keys(m, keep));
    let all = walked(keys, m);
    let kept = all.filter(keep);
    let page = listing(all, keep, pagination);
    let start = window_start(kept.len(), pagination.page_number(), pagination.page_size());
    assert forall|i: int| 0 <= i < page.items.len() implies {
        let item = #[trigger] page.items[i];
        keep(item) && exists|k: u64| #[trigger] m.contains_key(k) && m[k] == item
    } by {
        let item = page.items[i];
        all.lemma_filter_pred(keep, start + i);
        all.lemma_filter_contains_rev(keep, item);
        let j = choose|j: int| 0 <= j < all.len() && all[j] == item;
        assert(keys.contains(keys[j]));
    }
}

/// The views of borrowed users.
pub open spec fn user_views(users: Seq<&User>) -> Seq<UserView> {
    users.map_values(|u: &User| u@)
}

/// The views of borrowed posts.
pub open spec fn post_views(posts: Seq<&Post>) -> Seq<PostView> {
    posts.map_values(|p: &Post| p@)
}

/// Copies the requested page out of `kept` and computes the page counts.
fn paginate<T: Clone>(kept: &Vec<&T>, pagination: &PaginationParams) -> (r: PaginatedResponse<T>)
    ensures
        r.total == kept@.len(),
        r.page == pagination.page_number(),
        r.per_page == pagination.page_size(),
        r.pages == pages_needed(kept@.len(), pagination.page_size()),
        r.items@.len() == window_end(
            kept@.len(),
            pagination.page_number(),
            pagination.page_size(),
        ) - window_start(kept@.len(), pagination.page_number(), pagination.page_size()),
        forall|i: int|
            0 <= i < r.items@.len() ==> cloned(
                *kept@[window_start(
                    kept@.len(),
                    pagination.page_number(),
                    pagination.page_size(),
                ) + i],
                #[trigger] r.items@[i],
            ),
{
    let total = kept.len();
    let (start, end) = page_window(total, pagination);
    let mut items: Vec<T> = Vec::new();
    let mut i: usize = start;
    while i < end
        invariant
            start <= i <= end <= kept@.len(),
            items@.len() == i - start,
            forall|j: int|
                0 <= j < items@.len() ==> cloned(*kept@[start + j], #[trigger] items@[j]),
        decreases end - i,
    {
        items.push(kept[i].clone());
        i += 1;
    }
    PaginatedResponse {
        items,
        total,
        page: effective_page(pagination),
        per_page: effective_per_page(pagination),
        pages: count_pages(total, pagination),
    }
}

/// Whether a search finds a user, all three texts being in lowercase
/// already: the query must occur in the name or in the email.
pub fn lowered_matches(name: &str, email: &str, query: &str) -> (hit: bool)
    ensures
        hit == (is_substring(query@, name@) || is_substring(query@, email@)),
{
    contains(name, query) || contains(email, query)
}

/// Whether the lowercased query, where there is one, finds the user.
fn user_hit(user: &User, query: &Option<String>) -> (hit: bool)
    ensures
        hit == match *query {
            None => true,
            Some(q) => is_substring(q@, lowercase(user.name@)) || is_substring(
                q@,
                lowercase(user.email@),
            ),
        },
{
    match query {
        None => true,
        Some(q) => {
            let name = to_lowercase(user.name.as_str());
            let email = to_lowercase(user.email.as_str());
            lowered_matches(name.as_str(), email.as_str(), q.as_str())
        },
    }
}

/// Lists the users `all` as the query `params` asks: those that pass the
/// search are counted, in their given order, and the requested page of them
/// is returned.
pub fn select_users(all: &Vec<&User>, params: &UserListParams) -> (r: PaginatedResponse<User>)
    ensures
        r@ == listing(user_views(all@), user_filter(params@.search), params.pagination),
        params.search matches Some(q) && q@.len() == 0 ==> r.total == all@.len(),
{
    let query: Option<String> = match &params.search {
        None => None,
        Some(search) => Some(to_lowercase(search.as_str())),
    };
    let ghost views = user_views(all@);
    let ghost keep = user_filter(params@.search);
    let mut kept: Vec<&User> = Vec::new();
    let mut i: usize = 0;
    while i < all.len()
        invariant
            i <= all@.len(),
            views == user_views(all@),
            keep == user_filter(params@.search),
            user_views(kept@) == views.take(i as int).filter(keep),
            match query {
                None => params.search is None,
                Some(q) => params.search matches Some(s) && q@ == lowercase(s@) && (s@.len() == 0
                    ==> q@.len() == 0),
            },
            query matches Some(q) && q@.len() == 0 ==> kept@.len() == i,
        decreases all@.len() - i,
    {
        let user = all[i];
        let hit = user_hit(user, &query);
        proof {
            assert(views.take(i + 1) =~= views.take(i as int).push(views[i as int]));
            views.take(i as int).lemma_filter_push(views[i as int], keep);
            if query is Some && query->0@.len() == 0 {
                crate::text::lemma_empty_is_substring(query->0@, lowercase(user.name@));
            }
        }
        if hit {
            kept.push(user);
        }
        i += 1;
    }
    assert(views.take(all@.len() as int) =~= views);
    let r = paginate(&kept, &params.pagination);
    proof {
        let kept_views = user_views(kept@);
        let page = page_of(
            kept_views,
            params.pagination.page_number(),
            params.pagination.page_size(),
        );
        assert(r@.items =~= page);
    }
    r
}

/// Lists the posts `all` as the query `params` asks: those that pass the
/// filters are counted, in their given order, and the requested page of them
/// is returned.
pub fn select_posts(all: &Vec<&Post>, params: &PostListParams) -> (r: PaginatedResponse<Post>)
    ensures
        r@ == listing(
            post_views(all@),
            post_filter(params.author_id, params.published),
            params.pagination,
        ),
{
    let ghost views = post_views(all@);
    let ghost keep = post_filter(params.author_id, params.published);
    let mut kept: Vec<&Post> = Vec::new();
    let mut i: usize = 0;
    while i < all.len()
        invariant
            i <= all@.len(),
            views == post_views(all@),
            keep == post_filter(params.author_id, params.published),
            post_views(kept@) == views.take(i as int).filter(keep),
        decreases all@.len() - i,
    {
        let post = all[i];
        let by_author = match params.author_id {
            Some(author) => post.author_id == author,
            None => true,
        };
        let hit = by_author && (!params.published || post.published);
        proof {
            assert(views.take(i + 1) =~= views.take(i as int).push(views[i as int]));
            views.take(i as int).lemma_filter_push(views[i as int], keep);
        }
        if hit {
            kept.push(post);
        }
        i += 1;
    }
    assert(views.take(all@.len() as int) =~= views);
    let r = paginate(&kept, &params.pagination);
    proof {
        let page = page_of(
            post_views(kept@),
            params.pagination.page_number(),
            params.pagination.page_size(),
        );
        assert(r@.items =~= page);
    }
    r
}

} // verus!
