//! The item store: an ordered sequence of to-do items, numbered by position.
use vstd::prelude::*;

use crate::text::{decimal, push_decimal};

verus! {

/// What a to-do item is, as a mathematical value.
pub struct Entry {
    pub id: nat,
    pub text: Seq<char>,
    pub completed: bool,
}

/// A single to-do item.
pub struct TodoItem {
    pub id: usize,
    pub text: String,
    pub completed: bool,
}

impl View for TodoItem {
    type V = Entry;

    open spec fn view(&self) -> Entry {
        Entry { id: self.id as nat, text: self.text@, completed: self.completed }
    }
}

/// Every entry's id is its position in the sequence.
pub open spec fn numbered(s: Seq<Entry>) -> bool {
    forall|i: int| 0 <= i < s.len() ==> #[trigger] s[i].id == i
}

/// The store after adding an item with the given text.
pub open spec fn add_spec(s: Seq<Entry>, text: Seq<char>) -> Seq<Entry> {
    s.push(Entry { id: s.len(), text, completed: false })
}

/// Whether `id` names an item of the store.
pub open spec fn has_id(s: Seq<Entry>, id: int) -> bool {
    0 <= id < s.len()
}

/// The store after completing the item `id`; unchanged if there is none.
pub open spec fn complete_spec(s: Seq<Entry>, id: int) -> Seq<Entry> {
    if has_id(s, id) {
        s.update(id, Entry { completed: true, ..s[id] })
    } else {
        s
    }
}

/// The status mark of a line: `[x] ` for a completed item, `[ ] ` otherwise.
pub open spec fn mark(completed: bool) -> Seq<char> {
    if completed {
        seq!['[', 'x', ']', ' ']
    } else {
        seq!['[', ' ', ']', ' ']
    }
}

/// The display line of an entry: `[x] <id>: <text>` or `[ ] <id>: <text>`.
pub open spec fn line_spec(e: Entry) -> Seq<char> {
    mark(e.completed) + decimal(e.id) + seq![':', ' '] + e.text
}

/// The to-do list.
pub struct TodoApp {
    items: Vec<TodoItem>,
}

impl View for TodoApp {
    type V = Seq<Entry>;

    closed spec fn view(&self) -> Seq<Entry> {
        self.items@.map_values(|it: TodoItem| it@)
    }
}

impl TodoApp {
    /// Well-formed: the ids of the items are their positions.
    pub open spec fn wf(&self) -> bool {
        numbered(self@)
    }

    /// Creates an empty to-do list.
    pub fn new() -> (r: Self)
        ensures
            r@ == Seq::<Entry>::empty(),
            r.wf(),
    {
        let r = TodoApp { items: Vec::new() };
        assert(r@ =~= Seq::<Entry>::empty());
        r
    }

    /// The items, in insertion order.
    pub fn items(&self) -> (r: &Vec<TodoItem>)
        ensures
            r@.map_values(|it: TodoItem| it@) == self@,
    {
        &self.items
    }

    /// The number of items.
    pub fn len(&self) -> (r: usize)
        ensures
            r == self@.len(),
    {
        self.items.len()
    }

    /// Appends an item with the given text, numbered by its position.
    pub fn add(&mut self, text: String)
        requires
            old(self).wf(),
        ensures
            final(self)@ == add_spec(old(self)@, text@),
            final(self).wf(),
    {
        let id = self.items.len();
        let item = TodoItem { id, text, completed: false };
        self.items.push(item);
        assert(self@ =~= add_spec(old(self)@, item.text@));
    }

    /// Marks the item `id` completed; returns whether there is such an item.
    /// The list is left unchanged when there is none.
    pub fn complete(&mut self, id: usize) -> (r: bool)
        requires
            old(self).wf(),
        ensures
            r == has_id(old(self)@, id as int),
            final(self)@ == complete_spec(old(self)@, id as int),
            final(self).wf(),
    {
        if id < self.items.len() {
            self.items[id].completed = true;
            assert(self@ =~= complete_spec(old(self)@, id as int));
            true
        } else {
            false
        }
    }

    /// The display lines of the items, in insertion order.
    pub fn list(&self) -> (r: Vec<String>)
        ensures
            r@.len() == self@.len(),
            forall|i: int| 0 <= i < r@.len() ==> #[trigger] r@[i]@ == line_spec(self@[i]),
    {
        let mut r: Vec<String> = Vec::new();
        let mut i: usize = 0;
        while i < self.items.len()
            invariant
                i <= self.items@.len(),
                r@.len() == i,
                forall|j: int| 0 <= j < i ==> #[trigger] r@[j]@ == line_spec(self@[j]),
            decreases self.items@.len() - i,
        {
            let item = &self.items[i];
            let mut line = if item.completed {
                String::from_str("[x] ")
            } else {
                String::from_str("[ ] ")
            };
            push_decimal(&mut line, item.id);
            line.append(": ");
            line.append(item.text.as_str());
            proof {
                reveal_strlit("[x] ");
                reveal_strlit("[ ] ");
                reveal_strlit(": ");
                assert(line@ =~= line_spec(self@[i as int]));
            }
            r.push(line);
            i = i + 1;
        }
        r
    }
}

/// The store after adding the given texts one after another.
pub open spec fn after_adds(s: Seq<Entry>, texts: Seq<Seq<char>>) -> Seq<Entry>
    decreases texts.len(),
{
    if texts.len() == 0 {
        s
    } else {
        add_spec(after_adds(s, texts.drop_last()), texts.last())
    }
}

/// Starting from an empty list, any sequence of adds gives one item per add,
/// the i-th of them with id i, the i-th text, and not completed.
pub proof fn lemma_adds_number_items(texts: Seq<Seq<char>>)
    ensures
        after_adds(Seq::empty(), texts).len() == texts.len(),
        numbered(after_adds(Seq::empty(), texts)),
        forall|i: int|
            0 <= i < texts.len() ==> #[trigger] after_adds(Seq::empty(), texts)[i] == (Entry {
                id: i as nat,
                text: texts[i],
                completed: false,
            }),
    decreases texts.len(),
{
    if texts.len() > 0 {
        lemma_adds_number_items(texts.drop_last());
    }
}

/// Completing the same item twice gives the same list as completing it once,
/// and the second call reports the same result as the first.
pub proof fn lemma_complete_idempotent(s: Seq<Entry>, id: int)
    ensures
        complete_spec(complete_spec(s, id), id) == complete_spec(s, id),
        has_id(complete_spec(s, id), id) == has_id(s, id),
{
    if has_id(s, id) {
        assert(complete_spec(complete_spec(s, id), id) =~= complete_spec(s, id));
    }
}

} // verus!
