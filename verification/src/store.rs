//! The item store: an ordered sequence of to-do records with unique,
//! sequentially assigned identifiers, plus the counter for the next
//! identifier. Items are only ever appended, never edited or removed.

use vstd::prelude::*;
use crate::text::is_blank;
use crate::text::str_is_blank;

verus! {

/// One to-do record: an identifier, a text label and a completion flag.
/// Identifiers are assigned sequentially starting at 1; the flag is
/// initialized to `false` and never changed by the store.
#[derive(Debug)]
pub struct TodoItem {
    pub id: usize,
    pub title: String,
    pub completed: bool,
}

impl Clone for TodoItem {
    fn clone(&self) -> (r: Self)
        ensures
            r == *self,
    {
        TodoItem { id: self.id, title: self.title.clone(), completed: self.completed }
    }
}

impl PartialEq for TodoItem {
    fn eq(&self, other: &TodoItem) -> (r: bool) {
        self.id == other.id && self.title == other.title && self.completed == other.completed
    }
}

impl vstd::std_specs::cmp::PartialEqSpecImpl for TodoItem {
    open spec fn obeys_eq_spec() -> bool {
        true
    }

    open spec fn eq_spec(&self, other: &TodoItem) -> bool {
        self.id == other.id && self.title@ == other.title@ && self.completed == other.completed
    }
}

/// The in-memory store: the items in order of appending, and the
/// identifier the next appended item will get.
#[derive(Debug)]
pub struct TodoList {
    pub items: Vec<TodoItem>,
    pub next_id: usize,
}

/// What appending a label does: `it` is the record built from `title` with
/// the next identifier, `post` holds the items of `pre` unchanged with `it`
/// at the end, and the counter has moved one past.
pub open spec fn append_effect(pre: TodoList, post: TodoList, title: Seq<char>, it: TodoItem) -> bool {
    &&& it.id == pre.next_id
    &&& it.title@ == title
    &&& it.completed == false
    &&& post.next_id == pre.next_id + 1
    &&& post.items@.len() == pre.items@.len() + 1
    &&& post.items@[pre.items@.len() as int] == it
    &&& forall|i: int| 0 <= i < pre.items@.len() ==> post.items@[i] == pre.items@[i]
}

impl TodoList {
    /// Well-formedness: the identifiers read 1, 2, ..., N in order of
    /// appending, and the counter stands one past the last of them.
    pub open spec fn wf(self) -> bool {
        &&& self.next_id == self.items@.len() + 1
        &&& forall|i: int| 0 <= i < self.items@.len() ==> (#[trigger] self.items@[i].id) == i + 1
    }

    /// Creates a new empty list; the first item appended will get
    /// identifier 1.
    pub fn new() -> (r: TodoList)
        ensures
            r.wf(),
            r.items@.len() == 0,
            r.next_id == 1,
    {
        TodoList { items: Vec::new(), next_id: 1 }
    }

    /// Appends a new item carrying `title` as given (no trimming, no
    /// emptiness check), assigns it the next identifier, and returns a copy
    /// of it. Earlier items are left unchanged.
    pub fn add_item(&mut self, title: String) -> (item: TodoItem)
        requires
            old(self).next_id < usize::MAX,
        ensures
            append_effect(*old(self), *final(self), title@, item),
            old(self).wf() ==> final(self).wf(),
    {
        let item = TodoItem { id: self.next_id, title, completed: false };
        self.next_id += 1;
        self.items.push(item.clone());
        item
    }

    /// Handles one submission of the input field: a blank input (empty or
    /// white space only) is ignored and the store is left as it was;
    /// anything else is appended untrimmed, and the new item is returned.
    pub fn submit(&mut self, input: String) -> (added: Option<TodoItem>)
        requires
            old(self).next_id < usize::MAX,
        ensures
            added is Some <==> !is_blank(input@),
            (match added {
                Some(it) => append_effect(*old(self), *final(self), input@, it),
                None => *final(self) == *old(self),
            }),
            old(self).wf() ==> final(self).wf(),
    {
        if str_is_blank(input.as_str()) {
            None
        } else {
            Some(self.add_item(input))
        }
    }
}

/// Law: in a well-formed store the identifiers equal 1, 2, ..., N in order
/// of appending, where N is the number of items.
pub proof fn lemma_identifiers_sequential(l: TodoList)
    requires
        l.wf(),
    ensures
        forall|i: int| 0 <= i < l.items@.len() ==> (#[trigger] l.items@[i].id) == i + 1,
{
}

} // verus!
