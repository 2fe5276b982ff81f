//! The commands of the todo list, as changes to a list in memory.

use crate::clock::{local_now, Timestamp};
use crate::text::optional_text;
use crate::todo_cli::error::AppError;
use crate::todo_cli::models::{tag_views, Priority, Todo, TodoStore, TodoStoreView, TodoView};
use vstd::prelude::*;
use vstd::string::StringExecFns;

verus! {

/// The characters of each tag of an optional list of tags.
pub open spec fn optional_tags(tags: Option<Vec<String>>) -> Option<Seq<Seq<char>>> {
    match tags {
        Some(t) => Some(tag_views(t@)),
        None => None,
    }
}

/// Whether a todo is shown by a listing: completed todos only on request,
/// and, where a tag or a priority is named, only todos that carry it.
pub open spec fn todo_matches(
    todo: TodoView,
    show_done: bool,
    tag: Option<Seq<char>>,
    priority: Option<Priority>,
) -> bool {
    &&& show_done || !todo.done
    &&& tag matches Some(name) ==> todo.tags.contains(name)
    &&& priority matches Some(p) ==> todo.priority == p
}

/// [`todo_matches`] for fixed filters, as a predicate on todos.
pub open spec fn todo_filter(
    show_done: bool,
    tag: Option<Seq<char>>,
    priority: Option<Priority>,
) -> spec_fn(TodoView) -> bool {
    |todo: TodoView| todo_matches(todo, show_done, tag, priority)
}

/// The predicate that holds of every todo but those with identifier `id`.
pub open spec fn other_than(id: u64) -> spec_fn(TodoView) -> bool {
    |todo: TodoView| todo.id != id
}

/// The predicate that holds of completed todos.
pub open spec fn is_done() -> spec_fn(TodoView) -> bool {
    |todo: TodoView| todo.done
}

/// The predicate that holds of open todos of priority `priority`.
pub open spec fn is_pending_with(priority: Priority) -> spec_fn(TodoView) -> bool {
    |todo: TodoView| !todo.done && todo.priority == priority
}

/// The line of the statistics for one priority: its count of open todos,
/// left out where there is none.
pub open spec fn priority_line(todos: Seq<TodoView>, priority: Priority) -> Seq<(Priority, nat)> {
    let count = todos.filter(is_pending_with(priority)).len();
    if count > 0 {
        seq![(priority, count)]
    } else {
        Seq::empty()
    }
}

/// [`Stats`] with its counts as natural numbers.
pub struct StatsView {
    pub total: nat,
    pub pending: nat,
    pub completed: nat,
    pub by_priority: Seq<(Priority, nat)>,
}

impl TodoStoreView {
    /// Whether `i` is the position of the first todo with identifier `id`.
    pub open spec fn is_first(self, id: u64, i: int) -> bool {
        &&& 0 <= i < self.todos.len()
        &&& self.todos[i].id == id
        &&& forall|j: int| 0 <= j < i ==> (#[trigger] self.todos[j]).id != id
    }

    /// The position of the first todo with identifier `id`.
    pub open spec fn find(self, id: u64) -> Option<int> {
        if exists|i: int| self.is_first(id, i) {
            Some(choose|i: int| self.is_first(id, i))
        } else {
            None
        }
    }

    /// Adding a todo at `now`: it takes the next identifier and goes to the
    /// end of the list, open.
    pub open spec fn add(
        self,
        text: Seq<char>,
        priority: Priority,
        tags: Seq<Seq<char>>,
        now: Timestamp,
    ) -> (TodoStoreView, u64) {
        let todo = TodoView {
            id: self.next_id,
            text,
            done: false,
            priority,
            tags,
            created_at: now,
            completed_at: None,
        };
        (
            TodoStoreView { todos: self.todos.push(todo), next_id: (self.next_id + 1) as u64 },
            self.next_id,
        )
    }

    /// The todos that a listing shows, in the order of the list.
    pub open spec fn list(
        self,
        show_done: bool,
        tag: Option<Seq<char>>,
        priority: Option<Priority>,
    ) -> Seq<TodoView> {
        self.todos.filter(todo_filter(show_done, tag, priority))
    }

    /// Completing the first todo with identifier `id` at `now`: the list
    /// afterwards and the text of the todo, or the unchanged list and the
    /// failure where there is no such todo or it was completed before.
    pub open spec fn done(self, id: u64, now: Timestamp) -> (
        TodoStoreView,
        Result<Seq<char>, AppError>,
    ) {
        match self.find(id) {
            None => (self, Err(AppError::NotFound(id))),
            Some(i) => if self.todos[i].done {
                (self, Err(AppError::AlreadyDone(id)))
            } else {
                let todo = TodoView { done: true, completed_at: Some(now), ..self.todos[i] };
                (TodoStoreView { todos: self.todos.update(i, todo), ..self }, Ok(todo.text))
            },
        }
    }

    /// Removing every todo with identifier `id`: the list without them, or
    /// the unchanged list and the failure where there is none.
    pub open spec fn remove(self, id: u64) -> (TodoStoreView, Result<(), AppError>) {
        let kept = self.todos.filter(other_than(id));
        if kept.len() == self.todos.len() {
            (self, Err(AppError::NotFound(id)))
        } else {
            (TodoStoreView { todos: kept, ..self }, Ok(()))
        }
    }

    /// Editing the first todo with identifier `id`: the fields that are
    /// present replace the todo's, the others are kept.
    pub open spec fn edit(
        self,
        id: u64,
        text: Option<Seq<char>>,
        priority: Option<Priority>,
        tags: Option<Seq<Seq<char>>>,
    ) -> (TodoStoreView, Result<(), AppError>) {
        match self.find(id) {
            None => (self, Err(AppError::NotFound(id))),
            Some(i) => {
                let old = self.todos[i];
                let todo = TodoView {
                    text: match text {
                        Some(t) => t,
                        None => old.text,
                    },
                    priority: match priority {
                        Some(p) => p,
                        None => old.priority,
                    },
                    tags: match tags {
                        Some(t) => t,
                        None => old.tags,
                    },
                    ..old
                };
                (TodoStoreView { todos: self.todos.update(i, todo), ..self }, Ok(()))
            },
        }
    }

    /// The counts of the list: all todos, the completed and the open ones,
    /// and the open ones by priority, lowest first.
    pub open spec fn stats(self) -> StatsView {
        let completed = self.todos.filter(is_done()).len();
        StatsView {
            total: self.todos.len(),
            pending: (self.todos.len() - completed) as nat,
            completed,
            by_priority: priority_line(self.todos, Priority::Low) + priority_line(
                self.todos,
                Priority::Medium,
            ) + priority_line(self.todos, Priority::High),
        }
    }
}

/// Counts over a todo list.
#[derive(Debug)]
pub struct Stats {
    /// How many todos the list holds.
    pub total: usize,
    /// How many of them are open.
    pub pending: usize,
    /// How many of them are completed.
    pub completed: usize,
    /// The open todos counted by priority, lowest first, priorities without
    /// an open todo left out.
    pub by_priority: Vec<(Priority, usize)>,
}

impl View for Stats {
    type V = StatsView;

    open spec fn view(&self) -> StatsView {
        StatsView {
            total: self.total as nat,
            pending: self.pending as nat,
            completed: self.completed as nat,
            by_priority: self.by_priority@.map_values(
                |line: (Priority, usize)| (line.0, line.1 as nat),
            ),
        }
    }
}

/// The text of a successful outcome by its characters.
pub open spec fn text_outcome(r: Result<String, AppError>) -> Result<Seq<char>, AppError> {
    match r {
        Ok(text) => Ok(text@),
        Err(e) => Err(e),
    }
}

/// The position of the first todo with identifier `id`.
fn find_index(store: &TodoStore, id: u64) -> (r: Option<usize>)
    ensures
        match r {
            Some(i) => store@.is_first(id, i as int) && store@.find(id) == Some(i as int),
            None => store@.find(id) is None,
        },
{
    let mut i: usize = 0;
    while i < store.todos.len()
        invariant
            i <= store.todos@.len(),
            forall|j: int| 0 <= j < i ==> (#[trigger] store@.todos[j]).id != id,
        decreases store.todos@.len() - i,
    {
        if store.todos[i].id == id {
            proof {
                assert(store@.todos[i as int].id == id);
                assert(store@.is_first(id, i as int));
                let chosen = choose|k: int| store@.is_first(id, k);
                assert(store@.is_first(id, chosen));
                if chosen < i {
                    assert(store@.todos[chosen].id != id);
                }
                if i < chosen {
                    assert(store@.todos[i as int].id != id);
                }
            }
            return Some(i);
        }
        i += 1;
    }
    proof {
        assert forall|k: int| !store@.is_first(id, k) by {
            if 0 <= k < store@.todos.len() {
                assert(store@.todos[k].id != id);
            }
        }
    }
    None
}

/// Adds a todo at the instant `now` and returns its identifier.
pub fn add_at(
    store: &mut TodoStore,
    text: String,
    priority: Priority,
    tags: Vec<String>,
    now: Timestamp,
) -> (id: u64)
    requires
        old(store).next_id < u64::MAX,
    ensures
        (final(store)@, id) == old(store)@.add(text@, priority, tag_views(tags@), now),
{
    let id = store.next_id;
    store.next_id = id + 1;
    let todo = Todo { id, text, done: false, priority, tags, created_at: now, completed_at: None };
    store.todos.push(todo);
    assert(store@.todos =~= old(store)@.todos.push(todo@));
    id
}

/// Adds a todo at the current time and returns its identifier.
pub fn add(store: &mut TodoStore, text: String, priority: Priority, tags: Vec<String>) -> (id:
    u64)
    requires
        old(store).next_id < u64::MAX,
    ensures
        exists|now: Timestamp|
            (final(store)@, id) == #[trigger] old(store)@.add(
                text@,
                priority,
                tag_views(tags@),
                now,
            ),
{
    let now = local_now();
    add_at(store, text, priority, tags, now)
}

/// Whether one of `tags` is exactly `tag`.
fn has_tag(tags: &Vec<String>, tag: &String) -> (found: bool)
    ensures
        found == tag_views(tags@).contains(tag@),
{
    let mut i: usize = 0;
    while i < tags.len()
        invariant
            i <= tags@.len(),
            forall|j: int| 0 <= j < i ==> tag_views(tags@)[j] != tag@,
        decreases tags@.len() - i,
    {
        if tags[i] == *tag {
            assert(tag_views(tags@)[i as int] == tag@);
            return true;
        }
        i += 1;
    }
    false
}

/// Lists the todos to show, in the order of the list: completed todos only
/// where `show_done` is set, and only todos that carry the tag and have the
/// priority, where these are named.
pub fn list_todos<'a>(
    store: &'a TodoStore,
    show_done: bool,
    tag: Option<&str>,
    priority: Option<Priority>,
) -> (shown: Vec<&'a Todo>)
    ensures
        shown@.map_values(|t: &Todo| t@) == store@.list(
            show_done,
            match tag {
                Some(name) => Some(name@),
                None => None,
            },
            priority,
        ),
{
    let wanted: Option<String> = match tag {
        Some(name) => Some(String::from_str(name)),
        None => None,
    };
    let ghost tag_view: Option<Seq<char>> = match tag {
        Some(name) => Some(name@),
        None => None,
    };
    let ghost keep = todo_filter(show_done, tag_view, priority);
    let ghost views = store@.todos;
    let mut shown: Vec<&Todo> = Vec::new();
    let mut i: usize = 0;
    while i < store.todos.len()
        invariant
            i <= store.todos@.len(),
            views == store@.todos,
            keep == todo_filter(show_done, tag_view, priority),
            optional_text(wanted) == tag_view,
            shown@.map_values(|t: &Todo| t@) == views.take(i as int).filter(keep),
        decreases store.todos@.len() - i,
    {
        let todo = &store.todos[i];
        let tagged = match &wanted {
            Some(name) => has_tag(&todo.tags, name),
            None => true,
        };
        let ranked = match priority {
            Some(p) => todo.priority == p,
            None => true,
        };
        let hit = (show_done || !todo.done) && tagged && ranked;
        proof {
            assert(views.take(i + 1) =~= views.take(i as int).push(views[i as int]));
            views.take(i as int).lemma_filter_push(views[i as int], keep);
            assert(hit == keep(views[i as int]));
        }
        let ghost before = shown@;
        if hit {
            shown.push(todo);
            assert(shown@.map_values(|t: &Todo| t@) =~= before.map_values(|t: &Todo| t@).push(
                todo@,
            ));
        }
        i += 1;
    }
    assert(views.take(store.todos@.len() as int) =~= views);
    shown
}

/// Marks the first todo with identifier `todo_id` as completed at the
/// instant `now` and returns its text. Fails, changing nothing, where there
/// is no such todo or it was completed before.
pub fn done_at(store: &mut TodoStore, todo_id: u64, now: Timestamp) -> (r: Result<
    String,
    AppError,
>)
    ensures
        (final(store)@, text_outcome(r)) == old(store)@.done(todo_id, now),
{
    match find_index(store, todo_id) {
        None => Err(AppError::NotFound(todo_id)),
        Some(i) => {
            if store.todos[i].done {
                return Err(AppError::AlreadyDone(todo_id));
            }
            store.todos[i].done = true;
            store.todos[i].completed_at = Some(now);
            let text = store.todos[i].text.clone();
            assert(store@.todos =~= old(store)@.todos.update(
                i as int,
                TodoView { done: true, completed_at: Some(now), ..old(store)@.todos[i as int] },
            ));
            Ok(text)
        },
    }
}

/// Marks the first todo with identifier `todo_id` as completed at the
/// current time and returns its text.
pub fn done(store: &mut TodoStore, todo_id: u64) -> (r: Result<String, AppError>)
    ensures
        exists|now: Timestamp|
            (final(store)@, text_outcome(r)) == #[trigger] old(store)@.done(todo_id, now),
{
    let now = local_now();
    done_at(store, todo_id, now)
}

/// Removes every todo with identifier `todo_id`. Fails, changing nothing,
/// where there is none.
pub fn remove(store: &mut TodoStore, todo_id: u64) -> (r: Result<(), AppError>)
    ensures
        (final(store)@, r) == old(store)@.remove(todo_id),
{
    let ghost all = store@.todos;
    let ghost keep = other_than(todo_id);
    let len_before = store.todos.len();
    let ghost mut seen: int = 0;
    let mut i: usize = 0;
    while i < store.todos.len()
        invariant
            0 <= seen <= all.len(),
            i <= store.todos@.len(),
            store.next_id == old(store).next_id,
            all == old(store)@.todos,
            keep == other_than(todo_id),
            store@.todos.take(i as int) == all.take(seen).filter(keep),
            store@.todos.skip(i as int) == all.skip(seen),
        decreases store.todos@.len() - i,
    {
        proof {
            assert(all.skip(seen).len() == store@.todos.skip(i as int).len());
            assert(seen < all.len());
            assert(all.skip(seen)[0] == store@.todos.skip(i as int)[0]);
            assert(all.take(seen + 1) =~= all.take(seen).push(all[seen]));
            all.take(seen).lemma_filter_push(all[seen], keep);
        }
        let ghost current = store@.todos;
        if store.todos[i].id == todo_id {
            store.todos.remove(i);
            proof {
                assert(store@.todos =~= current.remove(i as int));
                assert(store@.todos.take(i as int) =~= current.take(i as int));
            }
        } else {
            proof {
                assert(current.skip(i + 1) =~= current.skip(i as int).skip(1));
            }
            i += 1;
        }
        proof {
            seen = seen + 1;
        }
    }
    proof {
        assert(all.take(seen) =~= all);
        assert(store@.todos.take(i as int) =~= store@.todos);
        if store@.todos.len() == all.len() {
            lemma_full_filter(all, keep);
        }
    }
    if store.todos.len() == len_before {
        Err(AppError::NotFound(todo_id))
    } else {
        Ok(())
    }
}

/// A filter that drops nothing leaves the sequence as it is.
proof fn lemma_full_filter<T>(s: Seq<T>, keep: spec_fn(T) -> bool)
    requires
        s.filter(keep).len() == s.len(),
    ensures
        s.filter(keep) == s,
    decreases s.len(),
{
    reveal(Seq::filter);
    if s.len() > 0 {
        s.drop_last().lemma_filter_len(keep);
        lemma_full_filter(s.drop_last(), keep);
    }
}

/// Edits the first todo with identifier `todo_id`: the fields that are
/// present replace the todo's. Fails, changing nothing, where there is no
/// such todo.
pub fn edit(
    store: &mut TodoStore,
    todo_id: u64,
    text: Option<String>,
    priority: Option<Priority>,
    tags: Option<Vec<String>>,
) -> (r: Result<(), AppError>)
    ensures
        (final(store)@, r) == old(store)@.edit(
            todo_id,
            optional_text(text),
            priority,
            optional_tags(tags),
        ),
{
    match find_index(store, todo_id) {
        None => Err(AppError::NotFound(todo_id)),
        Some(i) => {
            if let Some(t) = text {
                store.todos[i].text = t;
            }
            if let Some(p) = priority {
                store.todos[i].priority = p;
            }
            if let Some(tg) = tags {
                store.todos[i].tags = tg;
            }
            assert(store@.todos =~= old(store)@.edit(
                todo_id,
                optional_text(text),
                priority,
                optional_tags(tags),
            ).0.todos);
            Ok(())
        },
    }
}

/// How many open todos have the priority `priority`.
fn count_pending(store: &TodoStore, priority: Priority) -> (count: usize)
    ensures
        count == store@.todos.filter(is_pending_with(priority)).len(),
{
    let ghost keep = is_pending_with(priority);
    let ghost views = store@.todos;
    let mut count: usize = 0;
    let mut i: usize = 0;
    while i < store.todos.len()
        invariant
            i <= store.todos@.len(),
            views == store@.todos,
            keep == is_pending_with(priority),
            count == views.take(i as int).filter(keep).len(),
            count <= i,
        decreases store.todos@.len() - i,
    {
        proof {
            assert(views.take(i + 1) =~= views.take(i as int).push(views[i as int]));
            views.take(i as int).lemma_filter_push(views[i as int], keep);
        }
        if !store.todos[i].done && store.todos[i].priority == priority {
            count += 1;
        }
        i += 1;
    }
    assert(views.take(store.todos@.len() as int) =~= views);
    count
}

/// Counts the todos: all of them, the completed and the open ones, and the
/// open ones by priority.
pub fn stats(store: &TodoStore) -> (r: Stats)
    ensures
        r@ == store@.stats(),
{
    let ghost views = store@.todos;
    let total = store.todos.len();
    let mut completed: usize = 0;
    let mut i: usize = 0;
    while i < store.todos.len()
        invariant
            i <= store.todos@.len(),
            views == store@.todos,
            completed == views.take(i as int).filter(is_done()).len(),
            completed <= i,
        decreases store.todos@.len() - i,
    {
        proof {
            assert(views.take(i + 1) =~= views.take(i as int).push(views[i as int]));
            views.take(i as int).lemma_filter_push(views[i as int], is_done());
        }
        if store.todos[i].done {
            completed += 1;
        }
        i += 1;
    }
    assert(views.take(store.todos@.len() as int) =~= views);
    let pending = total - completed;
    let mut by_priority: Vec<(Priority, usize)> = Vec::new();
    let low = count_pending(store, Priority::Low);
    if low > 0 {
        by_priority.push((Priority::Low, low));
    }
    let medium = count_pending(store, Priority::Medium);
    if medium > 0 {
        by_priority.push((Priority::Medium, medium));
    }
    let high = count_pending(store, Priority::High);
    if high > 0 {
        by_priority.push((Priority::High, high));
    }
    let r = Stats { total, pending, completed, by_priority };
    assert(r@.by_priority =~= store@.stats().by_priority);
    r
}

} // verus!
