//! Todos, their priorities and the list that holds them.

use crate::clock::Timestamp;
use crate::text::{lowercase, to_lowercase};
use vstd::prelude::*;
use vstd::string::StringExecFns;

verus! {

/// How urgent a todo is, from least to most.
#[derive(Debug, Clone, Copy, PartialEq, Eq, PartialOrd, Ord, Structural)]
pub enum Priority {
    Low,
    Medium,
    High,
}

impl Priority {
    /// The lowercase name under which the priority is written out.
    pub open spec fn name(self) -> Seq<char> {
        match self {
            Priority::Low => "low"@,
            Priority::Medium => "medium"@,
            Priority::High => "high"@,
        }
    }

    /// The priority that a lowercase word names.
    pub open spec fn named(lowered: Seq<char>) -> Option<Priority> {
        if lowered == "low"@ {
            Some(Priority::Low)
        } else if lowered == "medium"@ {
            Some(Priority::Medium)
        } else if lowered == "high"@ {
            Some(Priority::High)
        } else {
            None
        }
    }

    /// The priority that a word names, letter case aside.
    pub open spec fn parse(word: Seq<char>) -> Option<Priority> {
        Priority::named(lowercase(word))
    }

    /// The message for a word that names no priority.
    pub open spec fn invalid(word: Seq<char>) -> Seq<char> {
        "invalid priority: "@ + word
    }

    /// The priority's lowercase name.
    pub fn to_string(&self) -> (s: String)
        ensures
            s@ == self.name(),
    {
        match self {
            Priority::Low => String::from_str("low"),
            Priority::Medium => String::from_str("medium"),
            Priority::High => String::from_str("high"),
        }
    }

    /// Reads a priority from `lowered`, the lowercase form of `word`. Where
    /// it names none, `word` is rejected with a message that repeats it.
    pub fn from_lowered(lowered: &String, word: &str) -> (r: Result<Priority, String>)
        ensures
            match r {
                Ok(priority) => Priority::named(lowered@) == Some(priority),
                Err(message) => Priority::named(lowered@) is None && message@
                    == Priority::invalid(word@),
            },
    {
        if *lowered == String::from_str("low") {
            Ok(Priority::Low)
        } else if *lowered == String::from_str("medium") {
            Ok(Priority::Medium)
        } else if *lowered == String::from_str("high") {
            Ok(Priority::High)
        } else {
            let mut message = String::from_str("invalid priority: ");
            message.append(word);
            Err(message)
        }
    }

    /// Reads a priority from its name, letter case aside. A word that names
    /// none is rejected with a message that repeats it.
    pub fn from_str(word: &str) -> (r: Result<Priority, String>)
        ensures
            match r {
                Ok(priority) => Priority::parse(word@) == Some(priority),
                Err(message) => Priority::parse(word@) is None && message@ == Priority::invalid(
                    word@,
                ),
            },
    {
        let lowered = to_lowercase(word);
        Priority::from_lowered(&lowered, word)
    }
}

impl std::str::FromStr for Priority {
    type Err = String;

    /// Reads a priority from its name, letter case aside, as
    /// [`Priority::from_str`] does.
    fn from_str(word: &str) -> (r: Result<Priority, String>)
        ensures
            match r {
                Ok(priority) => Priority::parse(word@) == Some(priority),
                Err(message) => Priority::parse(word@) is None && message@ == Priority::invalid(
                    word@,
                ),
            },
    {
        Priority::from_str(word)
    }
}

/// One thing to do.
#[derive(Debug)]
pub struct Todo {
    pub id: u64,
    pub text: String,
    pub done: bool,
    pub priority: Priority,
    pub tags: Vec<String>,
    pub created_at: Timestamp,
    pub completed_at: Option<Timestamp>,
}

/// A [`Todo`] with its texts as character sequences.
pub struct TodoView {
    pub id: u64,
    pub text: Seq<char>,
    pub done: bool,
    pub priority: Priority,
    pub tags: Seq<Seq<char>>,
    pub created_at: Timestamp,
    pub completed_at: Option<Timestamp>,
}

/// The characters of each tag.
pub open spec fn tag_views(tags: Seq<String>) -> Seq<Seq<char>> {
    tags.map_values(|tag: String| tag@)
}

impl View for Todo {
    type V = TodoView;

    open spec fn view(&self) -> TodoView {
        TodoView {
            id: self.id,
            text: self.text@,
            done: self.done,
            priority: self.priority,
            tags: tag_views(self.tags@),
            created_at: self.created_at,
            completed_at: self.completed_at,
        }
    }
}

/// The todo list: the todos in the order in which they were added, and the
/// identifier that the next one gets.
#[derive(Debug)]
pub struct TodoStore {
    pub todos: Vec<Todo>,
    pub next_id: u64,
}

/// A [`TodoStore`] as the sequence of its todos and its counter.
pub struct TodoStoreView {
    pub todos: Seq<TodoView>,
    pub next_id: u64,
}

impl View for TodoStore {
    type V = TodoStoreView;

    open spec fn view(&self) -> TodoStoreView {
        TodoStoreView { todos: self.todos@.map_values(|t: Todo| t@), next_id: self.next_id }
    }
}

impl Default for TodoStore {
    /// The empty list, whose first todo will get identifier 1.
    fn default() -> (store: TodoStore)
        ensures
            store@ == TodoStoreView::empty(),
    {
        let store = TodoStore { todos: Vec::new(), next_id: 1 };
        assert(store@.todos =~= Seq::empty());
        store
    }
}

impl TodoStoreView {
    /// The empty list.
    pub open spec fn empty() -> TodoStoreView {
        TodoStoreView { todos: Seq::empty(), next_id: 1 }
    }
}

} // verus!
