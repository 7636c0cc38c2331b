//! Documents: the hierarchical values that configuration text denotes.
//!
//! A document is null, a boolean, a number, a text, a list of documents or a
//! table from key to document. `Doc` is the mathematical value; `Document` and
//! `Table` are what a program holds, and their views are `Doc` values.

use vstd::prelude::*;

verus! {

/// The mathematical value of a document.
///
/// A number is kept as the text of its literal: nothing here computes with it.
pub enum Doc {
    Null,
    Bool(bool),
    Number(Seq<char>),
    Text(Seq<char>),
    List(Seq<Doc>),
    Table(Map<Seq<char>, Doc>),
}

/// A document held in memory.
#[derive(Debug)]
pub enum Document {
    Null,
    Bool(bool),
    Number(String),
    Text(String),
    List(Vec<Document>),
    Table(Table),
}

/// A table of a document: keys with one value each, in no particular order.
#[derive(Debug)]
pub struct Table {
    entries: Vec<(String, Document)>,
}

/// No key stands at two places of `entries`.
spec fn distinct_keys(entries: Seq<(String, Document)>) -> bool {
    forall|i: int, j: int|
        0 <= i < j < entries.len() ==> (#[trigger] entries[i]).0@ != (#[trigger] entries[j]).0@
}

/// Some entry of `entries` has the key `key`.
spec fn holds_key(entries: Seq<(String, Document)>, key: Seq<char>) -> bool {
    exists|i: int| 0 <= i < entries.len() && (#[trigger] entries[i]).0@ == key
}

/// A place of `key` in `entries`, where it has one.
spec fn place_of(entries: Seq<(String, Document)>, key: Seq<char>) -> int {
    choose|i: int| 0 <= i < entries.len() && (#[trigger] entries[i]).0@ == key
}

/// The map that `entries` stand for.
spec fn entries_map(entries: Seq<(String, Document)>) -> Map<Seq<char>, Doc> {
    Map::new(
        |k: Seq<char>| holds_key(entries, k),
        |k: Seq<char>|
            if holds_key(entries, k) {
                entries[place_of(entries, k)].1.view()
            } else {
                Doc::Null
            },
    )
}

/// Some text of `names` is `key`.
pub open spec fn lists(names: Seq<String>, key: Seq<char>) -> bool {
    exists|i: int| 0 <= i < names.len() && (#[trigger] names[i])@ == key
}

/// The values of `items`, in order.
pub open spec fn items_view(items: Seq<Document>) -> Seq<Doc> {
    Seq::new(items.len(), |i: int| items[i].view())
}

/// The document that stands in `doc` at the end of `path`, a sequence of
/// keys, where every key of the path is found.
pub open spec fn at(doc: Doc, path: Seq<Seq<char>>) -> Option<Doc>
    decreases path.len(),
{
    if path.len() == 0 {
        Some(doc)
    } else {
        match doc {
            Doc::Table(m) => if m.contains_key(path[0]) {
                at(m[path[0]], path.skip(1))
            } else {
                None
            },
            _ => None,
        }
    }
}

/// The keys of a path, as texts.
pub open spec fn path_view(path: Seq<String>) -> Seq<Seq<char>> {
    Seq::new(path.len(), |i: int| path[i]@)
}

/// With distinct keys, each entry is what the map holds under its key.
proof fn lemma_entry_in_map(entries: Seq<(String, Document)>, i: int)
    requires
        distinct_keys(entries),
        0 <= i < entries.len(),
    ensures
        entries_map(entries).contains_key(entries[i].0@),
        entries_map(entries)[entries[i].0@] == entries[i].1.view(),
{
    let key = entries[i].0@;
    assert(holds_key(entries, key));
    let p = place_of(entries, key);
    assert(0 <= p < entries.len() && entries[p].0@ == key);
    if p < i {
        assert(entries[p].0@ != entries[i].0@);
    } else if i < p {
        assert(entries[i].0@ != entries[p].0@);
    }
}

/// Pushing an entry with a fresh key inserts it into the map.
proof fn lemma_push_fresh(entries: Seq<(String, Document)>, entry: (String, Document))
    requires
        distinct_keys(entries),
        !holds_key(entries, entry.0@),
    ensures
        distinct_keys(entries.push(entry)),
        entries_map(entries.push(entry)) == entries_map(entries).insert(entry.0@, entry.1.view()),
{
    let longer = entries.push(entry);
    assert forall|i: int, j: int| 0 <= i < j < longer.len() implies (#[trigger] longer[i]).0@ != (
    #[trigger] longer[j]).0@ by {
        if j == entries.len() {
            assert(longer[i] == entries[i]);
            assert(!(entries[i].0@ == entry.0@));
        } else {
            assert(longer[i] == entries[i] && longer[j] == entries[j]);
        }
    }
    let left = entries_map(longer);
    let right = entries_map(entries).insert(entry.0@, entry.1.view());
    assert forall|k: Seq<char>| left.contains_key(k) <==> right.contains_key(k) by {
        if holds_key(longer, k) {
            let i = place_of(longer, k);
            if i < entries.len() {
                assert(entries[i] == longer[i]);
            }
        }
        if holds_key(entries, k) {
            let i = place_of(entries, k);
            assert(longer[i] == entries[i]);
        }
        if k == entry.0@ {
            assert(longer[entries.len() as int] == entry);
        }
    }
    assert forall|k: Seq<char>| left.contains_key(k) implies left[k] == right[k] by {
        let i = place_of(longer, k);
        lemma_entry_in_map(longer, i);
        if i < entries.len() {
            assert(longer[i] == entries[i]);
            lemma_entry_in_map(entries, i);
        } else {
            assert(longer[i] == entry);
        }
    }
    assert(left =~= right);
}

/// Replacing the value of the entry at `i` replaces what the map holds there.
proof fn lemma_replace_value(entries: Seq<(String, Document)>, i: int, entry: (String, Document))
    requires
        distinct_keys(entries),
        0 <= i < entries.len(),
        entry.0@ == entries[i].0@,
    ensures
        distinct_keys(entries.update(i, entry)),
        entries_map(entries.update(i, entry)) == entries_map(entries).insert(
            entry.0@,
            entry.1.view(),
        ),
{
    let changed = entries.update(i, entry);
    assert forall|a: int, b: int| 0 <= a < b < changed.len() implies (#[trigger] changed[a]).0@ != (
    #[trigger] changed[b]).0@ by {
        assert(changed[a].0@ == entries[a].0@);
        assert(changed[b].0@ == entries[b].0@);
    }
    let left = entries_map(changed);
    let right = entries_map(entries).insert(entry.0@, entry.1.view());
    assert forall|k: Seq<char>| left.contains_key(k) <==> right.contains_key(k) by {
        if holds_key(changed, k) {
            let p = place_of(changed, k);
            assert(changed[p].0@ == entries[p].0@);
        }
        if holds_key(entries, k) {
            let p = place_of(entries, k);
            assert(changed[p].0@ == entries[p].0@);
        }
        if k == entry.0@ {
            assert(changed[i].0@ == k);
        }
    }
    assert forall|k: Seq<char>| left.contains_key(k) implies left[k] == right[k] by {
        let p = place_of(changed, k);
        lemma_entry_in_map(changed, p);
        if p != i {
            assert(changed[p] == entries[p]);
            lemma_entry_in_map(entries, p);
        }
    }
    assert(left =~= right);
}

impl Document {
    /// The document that this value denotes.
    pub open spec fn view(&self) -> Doc
        decreases self,
    {
        match self {
            Document::Null => Doc::Null,
            Document::Bool(flag) => Doc::Bool(*flag),
            Document::Number(literal) => Doc::Number(literal@),
            Document::Text(text) => Doc::Text(text@),
            Document::List(items) => Doc::List(
                Seq::new(
                    items@.len(),
                    |i: int|
                        if 0 <= i < items@.len() {
                            items@[i].view()
                        } else {
                            Doc::Null
                        },
                ),
            ),
            Document::Table(table) => Doc::Table(table.view()),
        }
    }

    /// The text of a text value, and `None` for every other value.
    pub fn as_text(&self) -> (text: Option<&String>)
        ensures
            match text {
                Some(t) => self@ == Doc::Text(t@),
                None => !(self@ is Text),
            },
    {
        match self {
            Document::Text(text) => Some(text),
            _ => None,
        }
    }

    /// The table of a table value, and `None` for every other value.
    pub fn as_table(&self) -> (table: Option<&Table>)
        ensures
            match table {
                Some(t) => self@ == Doc::Table(t@) && decreases_to!(self => t),
                None => !(self@ is Table),
            },
    {
        match self {
            Document::Table(table) => Some(table),
            _ => None,
        }
    }

    /// The items of a list value, and `None` for every other value.
    pub fn as_list(&self) -> (items: Option<&Vec<Document>>)
        ensures
            match items {
                Some(v) => self@ == Doc::List(items_view(v@)),
                None => !(self@ is List),
            },
    {
        match self {
            Document::List(items) => {
                assert(self@->List_0 =~= items_view(items@));
                Some(items)
            },
            _ => None,
        }
    }

    /// The document at the end of `path`, a sequence of keys, where every key
    /// of the path is found.
    pub fn at(&self, path: &Vec<String>) -> (found: Option<&Document>)
        ensures
            match found {
                Some(document) => at(self@, path_view(path@)) == Some(document@),
                None => at(self@, path_view(path@)) is None,
            },
    {
        let ghost keys = path_view(path@);
        let mut here = self;
        let mut i: usize = 0;
        assert(keys.skip(0) =~= keys);
        while i < path.len()
            invariant
                i <= path.len(),
                keys == path_view(path@),
                at(self@, keys) == at(here@, keys.skip(i as int)),
            decreases path.len() - i,
        {
            let ghost rest = keys.skip(i as int);
            assert(rest.len() > 0 && rest[0] == path@[i as int]@);
            assert(rest.skip(1) =~= keys.skip(i + 1));
            let table = match here.as_table() {
                Some(table) => table,
                None => {
                    return None;
                },
            };
            here = match table.get(path[i].as_str()) {
                Some(inner) => inner,
                None => {
                    return None;
                },
            };
            i += 1;
        }
        Some(here)
    }

    /// Whether the two values denote the same document.
    pub fn same(&self, other: &Document) -> (same: bool)
        ensures
            same == (self@ == other@),
        decreases self,
    {
        match (self, other) {
            (Document::Null, Document::Null) => true,
            (Document::Bool(left), Document::Bool(right)) => *left == *right,
            (Document::Number(left), Document::Number(right)) => *left == *right,
            (Document::Text(left), Document::Text(right)) => *left == *right,
            (Document::List(left), Document::List(right)) => {
                if left.len() != right.len() {
                    assert(self@->List_0.len() != other@->List_0.len());
                    return false;
                }
                assert(self@->List_0 =~= items_view(left@));
                assert(other@->List_0 =~= items_view(right@));
                let mut i: usize = 0;
                while i < left.len()
                    invariant
                        i <= left.len(),
                        left.len() == right.len(),
                        forall|j: int| 0 <= j < i ==> (#[trigger] left@[j])@ == right@[j]@,
                        forall|j: int|
                            0 <= j < left.len() ==> decreases_to!(self => #[trigger] left@[j]),
                        self@ == Doc::List(items_view(left@)),
                        other@ == Doc::List(items_view(right@)),
                    decreases left.len() - i,
                {
                    if !left[i].same(&right[i]) {
                        assert(items_view(left@)[i as int] != items_view(right@)[i as int]);
                        return false;
                    }
                    i += 1;
                }
                assert(items_view(left@) =~= items_view(right@));
                true
            },
            (Document::Table(left), Document::Table(right)) => left.same(right),
            _ => false,
        }
    }
}

impl Clone for Document {
    /// A copy that denotes the same document.
    fn clone(&self) -> (copy: Document)
        ensures
            copy@ == self@,
        decreases self,
    {
        match self {
            Document::Null => Document::Null,
            Document::Bool(flag) => Document::Bool(*flag),
            Document::Number(literal) => Document::Number(literal.clone()),
            Document::Text(text) => Document::Text(text.clone()),
            Document::List(items) => {
                let mut copies: Vec<Document> = Vec::new();
                let mut i: usize = 0;
                while i < items.len()
                    invariant
                        i <= items.len(),
                        copies@.len() == i,
                        forall|j: int| 0 <= j < i ==> (#[trigger] copies@[j])@ == items@[j]@,
                        forall|j: int|
                            0 <= j < items.len() ==> decreases_to!(self => #[trigger] items@[j]),
                    decreases items.len() - i,
                {
                    let copy = items[i].clone();
                    copies.push(copy);
                    i += 1;
                }
                let copy = Document::List(copies);
                assert(copy@->List_0 =~= self@->List_0);
                copy
            },
            Document::Table(table) => Document::Table(table.clone()),
        }
    }
}

impl Table {
    #[verifier::type_invariant]
    spec fn well_formed(&self) -> bool {
        distinct_keys(self.entries@)
    }

    /// The map from each key of the table to the document under it.
    pub closed spec fn view(&self) -> Map<Seq<char>, Doc>
        decreases self,
    {
        Map::new(
            |k: Seq<char>| holds_key(self.entries@, k),
            |k: Seq<char>|
                if holds_key(self.entries@, k) {
                    self.entries@[place_of(self.entries@, k)].1.view()
                } else {
                    Doc::Null
                },
        )
    }

    proof fn lemma_view(&self)
        ensures
            self@ == entries_map(self.entries@),
    {
        assert(self@ =~= entries_map(self.entries@));
    }

    /// The table without entries.
    pub fn new() -> (table: Table)
        ensures
            table@ == Map::<Seq<char>, Doc>::empty(),
    {
        let table = Table { entries: Vec::new() };
        assert(table@ =~= Map::<Seq<char>, Doc>::empty());
        table
    }

    fn position(&self, key: &String) -> (place: Option<usize>)
        ensures
            match place {
                Some(i) => i < self.entries@.len() && self.entries@[i as int].0@ == key@,
                None => !holds_key(self.entries@, key@),
            },
    {
        let mut i: usize = 0;
        while i < self.entries.len()
            invariant
                i <= self.entries.len(),
                forall|j: int| 0 <= j < i ==> (#[trigger] self.entries@[j]).0@ != key@,
            decreases self.entries.len() - i,
        {
            if self.entries[i].0 == *key {
                return Some(i);
            }
            i += 1;
        }
        None
    }

    /// The value under `key`, where the table has that key.
    pub fn get(&self, key: &str) -> (found: Option<&Document>)
        ensures
            match found {
                Some(value) => self@.contains_key(key@) && self@[key@] == value@
                    && decreases_to!(self => value),
                None => !self@.contains_key(key@),
            },
    {
        let wanted = key.to_owned();
        proof {
            use_type_invariant(self);
            self.lemma_view();
        }
        match self.position(&wanted) {
            Some(i) => {
                proof {
                    lemma_entry_in_map(self.entries@, i as int);
                }
                Some(&self.entries[i].1)
            },
            None => None,
        }
    }

    /// The table with `value` under `key`, in place of what it held there.
    pub fn with(self, key: String, value: Document) -> (table: Table)
        ensures
            table@ == self@.insert(key@, value@),
    {
        proof {
            use_type_invariant(&self);
            self.lemma_view();
        }
        let place = self.position(&key);
        let mut entries = self.entries;
        match place {
            Some(i) => {
                proof {
                    lemma_replace_value(entries@, i as int, (key, value));
                }
                entries.set(i, (key, value));
            },
            None => {
                proof {
                    lemma_push_fresh(entries@, (key, value));
                }
                entries.push((key, value));
            },
        }
        let table = Table { entries };
        proof {
            table.lemma_view();
        }
        table
    }

    /// The keys of the table, each once.
    pub fn keys(&self) -> (names: Vec<String>)
        ensures
            forall|k: Seq<char>| self@.contains_key(k) <==> lists(names@, k),
            forall|i: int, j: int|
                0 <= i < j < names@.len() ==> (#[trigger] names@[i])@ != (#[trigger] names@[j])@,
    {
        proof {
            use_type_invariant(self);
            self.lemma_view();
        }
        let mut names: Vec<String> = Vec::new();
        let mut i: usize = 0;
        while i < self.entries.len()
            invariant
                i <= self.entries.len(),
                names@.len() == i,
                forall|j: int| 0 <= j < i ==> (#[trigger] names@[j])@ == self.entries@[j].0@,
            decreases self.entries.len() - i,
        {
            names.push(self.entries[i].0.clone());
            i += 1;
        }
        assert forall|k: Seq<char>| self@.contains_key(k) <==> lists(names@, k) by {
            if holds_key(self.entries@, k) {
                let p = place_of(self.entries@, k);
                assert(names@[p]@ == k);
            }
            if lists(names@, k) {
                let p = choose|p: int| 0 <= p < names@.len() && (#[trigger] names@[p])@ == k;
                assert(self.entries@[p].0@ == k);
            }
        }
        assert forall|a: int, b: int| 0 <= a < b < names@.len() implies (#[trigger] names@[a])@ != (
        #[trigger] names@[b])@ by {
            assert(self.entries@[a].0@ != self.entries@[b].0@);
        }
        names
    }
}

impl Table {
    /// Whether the two tables denote the same map.
    pub fn same(&self, other: &Table) -> (same: bool)
        ensures
            same == (self@ == other@),
        decreases self,
    {
        let keys = self.keys();
        let mut i: usize = 0;
        while i < keys.len()
            invariant
                i <= keys.len(),
                forall|k: Seq<char>| self@.contains_key(k) <==> lists(keys@, k),
                forall|j: int|
                    0 <= j < i ==> other@.contains_key((#[trigger] keys@[j])@) && other@[keys@[j]@]
                        == self@[keys@[j]@],
            decreases keys.len() - i,
        {
            assert(lists(keys@, keys@[i as int]@));
            let equal = match (self.get(keys[i].as_str()), other.get(keys[i].as_str())) {
                (Some(left), Some(right)) => left.same(right),
                _ => false,
            };
            if !equal {
                return false;
            }
            i += 1;
        }
        let others = other.keys();
        let mut i: usize = 0;
        while i < others.len()
            invariant
                i <= others.len(),
                forall|k: Seq<char>| other@.contains_key(k) <==> lists(others@, k),
                forall|j: int| 0 <= j < i ==> self@.contains_key((#[trigger] others@[j])@),
            decreases others.len() - i,
        {
            assert(lists(others@, others@[i as int]@));
            if self.get(others[i].as_str()).is_none() {
                return false;
            }
            i += 1;
        }
        assert forall|k: Seq<char>| self@.contains_key(k) <==> other@.contains_key(k) by {
            if self@.contains_key(k) {
                assert(lists(keys@, k));
                let j = choose|j: int| 0 <= j < keys@.len() && (#[trigger] keys@[j])@ == k;
                assert(other@.contains_key(keys@[j]@));
            }
            if other@.contains_key(k) {
                assert(lists(others@, k));
                let j = choose|j: int| 0 <= j < others@.len() && (#[trigger] others@[j])@ == k;
                assert(self@.contains_key(others@[j]@));
            }
        }
        assert forall|k: Seq<char>| self@.contains_key(k) implies self@[k] == other@[k] by {
            assert(lists(keys@, k));
            let j = choose|j: int| 0 <= j < keys@.len() && (#[trigger] keys@[j])@ == k;
            assert(other@[keys@[j]@] == self@[keys@[j]@]);
        }
        assert(self@ =~= other@);
        true
    }
}

impl Clone for Table {
    /// A copy that denotes the same map.
    fn clone(&self) -> (copy: Table)
        ensures
            copy@ == self@,
        decreases self,
    {
        proof {
            use_type_invariant(self);
            self.lemma_view();
        }
        let mut entries: Vec<(String, Document)> = Vec::new();
        let mut i: usize = 0;
        while i < self.entries.len()
            invariant
                i <= self.entries.len(),
                entries@.len() == i,
                forall|j: int|
                    0 <= j < i ==> (#[trigger] entries@[j]).0@ == self.entries@[j].0@
                        && entries@[j].1@ == self.entries@[j].1@,
                forall|j: int|
                    0 <= j < self.entries.len() ==> decreases_to!(self => (#[trigger] self.entries@[j]).1),
            decreases self.entries.len() - i,
        {
            let key = self.entries[i].0.clone();
            let value = self.entries[i].1.clone();
            entries.push((key, value));
            i += 1;
        }
        proof {
            lemma_same_entries(self.entries@, entries@);
        }
        let copy = Table { entries };
        proof {
            copy.lemma_view();
        }
        copy
    }
}

/// Entries with the same keys and the same documents, place by place, stand
/// for the same map.
proof fn lemma_same_entries(first: Seq<(String, Document)>, second: Seq<(String, Document)>)
    requires
        distinct_keys(first),
        first.len() == second.len(),
        forall|j: int|
            0 <= j < first.len() ==> (#[trigger] second[j]).0@ == first[j].0@ && second[j].1@
                == first[j].1@,
    ensures
        distinct_keys(second),
        entries_map(second) == entries_map(first),
{
    assert forall|a: int, b: int| 0 <= a < b < second.len() implies (#[trigger] second[a]).0@ != (
    #[trigger] second[b]).0@ by {
        assert(first[a].0@ != first[b].0@);
    }
    let left = entries_map(second);
    let right = entries_map(first);
    assert forall|k: Seq<char>| left.contains_key(k) <==> right.contains_key(k) by {
        if holds_key(second, k) {
            let p = place_of(second, k);
            assert(first[p].0@ == k);
        }
        if holds_key(first, k) {
            let p = place_of(first, k);
            assert(second[p].0@ == k);
        }
    }
    assert forall|k: Seq<char>| left.contains_key(k) implies left[k] == right[k] by {
        let p = place_of(second, k);
        lemma_entry_in_map(second, p);
        lemma_entry_in_map(first, p);
    }
    assert(left =~= right);
}

} // verus!
