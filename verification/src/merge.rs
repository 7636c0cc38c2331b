//! Overlaying one document on another.
//!
//! Tables are merged key by key, at every depth; anything else in the
//! overlay, a list included, replaces what the base held at that place.

use crate::document::{at, lists, Doc, Document, Table};
use vstd::prelude::*;

verus! {

/// `over` laid on `base`.
pub open spec fn deep_merge(base: Doc, over: Doc) -> Doc
    decreases over,
{
    match (base, over) {
        (Doc::Table(b), Doc::Table(o)) => Doc::Table(
            Map::new(
                |k: Seq<char>| b.contains_key(k) || o.contains_key(k),
                |k: Seq<char>|
                    if o.contains_key(k) {
                        if b.contains_key(k) {
                            deep_merge(b[k], o[k])
                        } else {
                            o[k]
                        }
                    } else {
                        b[k]
                    },
            ),
        ),
        _ => over,
    }
}

/// What the merge of the tables `b` and `o` holds under `k`.
spec fn merged_entry(b: Map<Seq<char>, Doc>, o: Map<Seq<char>, Doc>, k: Seq<char>) -> Doc {
    if o.contains_key(k) {
        if b.contains_key(k) {
            deep_merge(b[k], o[k])
        } else {
            o[k]
        }
    } else {
        b[k]
    }
}

/// `over` is silent on `path`: down the path it holds tables only, and one
/// of them lacks the next key.
pub open spec fn silent_on(over: Doc, path: Seq<Seq<char>>) -> bool
    decreases path.len(),
{
    path.len() > 0 && match over {
        Doc::Table(o) => !o.contains_key(path[0]) || silent_on(o[path[0]], path.skip(1)),
        _ => false,
    }
}

/// Some text among the first `n` of `names` is `key`.
spec fn lists_before(names: Seq<String>, n: int, key: Seq<char>) -> bool {
    exists|j: int| 0 <= j < n && j < names.len() && (#[trigger] names[j])@ == key
}

/// Lays `over` on `base`.
pub fn merge(base: &Document, over: &Document) -> (merged: Document)
    ensures
        merged@ == deep_merge(base@, over@),
    decreases over,
{
    let (b, o) = match (base.as_table(), over.as_table()) {
        (Some(b), Some(o)) => (b, o),
        _ => {
            return over.clone();
        },
    };
    let mut out = Table::new();
    let base_keys = b.keys();
    let mut i: usize = 0;
    while i < base_keys.len()
        invariant
            i <= base_keys.len(),
            over@ == Doc::Table(o@),
            decreases_to!(over => o),
            forall|k: Seq<char>| b@.contains_key(k) <==> lists(base_keys@, k),
            forall|k: Seq<char>| out@.contains_key(k) <==> lists_before(base_keys@, i as int, k),
            forall|k: Seq<char>| out@.contains_key(k) ==> out@[k] == merged_entry(b@, o@, k),
        decreases base_keys.len() - i,
    {
        let key = &base_keys[i];
        assert(lists(base_keys@, key@));
        let ghost before = out@;
        if let Some(held) = b.get(key.as_str()) {
            let value = match o.get(key.as_str()) {
                Some(laid) => merge(held, laid),
                None => held.clone(),
            };
            out = out.with(key.clone(), value);
        }
        assert forall|k: Seq<char>| out@.contains_key(k) <==> lists_before(
            base_keys@,
            i + 1,
            k,
        ) by {
            if lists_before(base_keys@, i + 1, k) {
                let j = choose|j: int| 0 <= j < i + 1 && (#[trigger] base_keys@[j])@ == k;
                if j < i {
                    assert(lists_before(base_keys@, i as int, k));
                }
            }
            if before.contains_key(k) {
                let j = choose|j: int| 0 <= j < i && (#[trigger] base_keys@[j])@ == k;
                assert(base_keys@[j]@ == k);
            }
            if k == key@ {
                assert(base_keys@[i as int]@ == k);
            }
        }
        i += 1;
    }
    assert forall|k: Seq<char>| out@.contains_key(k) <==> b@.contains_key(k) by {
        if lists(base_keys@, k) {
            let j = choose|j: int| 0 <= j < base_keys@.len() && (#[trigger] base_keys@[j])@ == k;
            assert(lists_before(base_keys@, i as int, k));
        }
        if lists_before(base_keys@, i as int, k) {
            let j = choose|j: int| 0 <= j < i && (#[trigger] base_keys@[j])@ == k;
            assert(lists(base_keys@, k));
        }
    }
    let over_keys = o.keys();
    let mut i: usize = 0;
    while i < over_keys.len()
        invariant
            i <= over_keys.len(),
            over@ == Doc::Table(o@),
            forall|k: Seq<char>| o@.contains_key(k) <==> lists(over_keys@, k),
            forall|k: Seq<char>|
                out@.contains_key(k) <==> b@.contains_key(k) || lists_before(
                    over_keys@,
                    i as int,
                    k,
                ),
            forall|k: Seq<char>| out@.contains_key(k) ==> out@[k] == merged_entry(b@, o@, k),
        decreases over_keys.len() - i,
    {
        let key = &over_keys[i];
        assert(lists(over_keys@, key@));
        let ghost before = out@;
        if b.get(key.as_str()).is_none() {
            if let Some(laid) = o.get(key.as_str()) {
                out = out.with(key.clone(), laid.clone());
            }
        }
        assert forall|k: Seq<char>|
            out@.contains_key(k) <==> b@.contains_key(k) || lists_before(
                over_keys@,
                i + 1,
                k,
            ) by {
            if lists_before(over_keys@, i + 1, k) {
                let j = choose|j: int| 0 <= j < i + 1 && (#[trigger] over_keys@[j])@ == k;
                if j < i {
                    assert(lists_before(over_keys@, i as int, k));
                }
            }
            if before.contains_key(k) && !b@.contains_key(k) {
                let j = choose|j: int| 0 <= j < i && (#[trigger] over_keys@[j])@ == k;
                assert(over_keys@[j]@ == k);
            }
            if k == key@ {
                assert(over_keys@[i as int]@ == k);
            }
        }
        i += 1;
    }
    proof {
        let target = deep_merge(base@, over@)->Table_0;
        assert forall|k: Seq<char>| out@.contains_key(k) <==> target.contains_key(k) by {
            if lists(over_keys@, k) {
                let j = choose|j: int| 0 <= j < over_keys@.len() && (#[trigger] over_keys@[j])@ == k;
                assert(lists_before(over_keys@, over_keys@.len() as int, k));
            }
        }
        assert(out@ =~= target);
    }
    Document::Table(out)
}

/// A document laid on itself is that document.
pub proof fn law_merge_with_itself(doc: Doc)
    ensures
        deep_merge(doc, doc) == doc,
    decreases doc,
{
    match doc {
        Doc::Table(m) => {
            let merged = deep_merge(doc, doc)->Table_0;
            assert forall|k: Seq<char>| m.contains_key(k) implies merged[k] == m[k] by {
                law_merge_with_itself(m[k]);
            }
            assert(merged =~= m);
        },
        _ => {},
    }
}

/// Where the overlay holds anything but a table at the end of a path, the
/// merge holds the same there, whatever the base.
pub proof fn law_overlay_leaf_wins(base: Doc, over: Doc, path: Seq<Seq<char>>)
    requires
        at(over, path) is Some,
        !(at(over, path)->Some_0 is Table),
    ensures
        at(deep_merge(base, over), path) == at(over, path),
    decreases path.len(),
{
    if path.len() > 0 {
        match (base, over) {
            (Doc::Table(b), Doc::Table(o)) => {
                let k = path[0];
                if b.contains_key(k) {
                    law_overlay_leaf_wins(b[k], o[k], path.skip(1));
                }
            },
            _ => {},
        }
    }
}

/// Where the overlay is silent on a path, the merge holds there what the
/// base holds there.
pub proof fn law_silence_keeps_base(base: Doc, over: Doc, path: Seq<Seq<char>>)
    requires
        silent_on(over, path),
    ensures
        at(deep_merge(base, over), path) == at(base, path),
    decreases path.len(),
{
    let k = path[0];
    let o = over->Table_0;
    match base {
        Doc::Table(b) => {
            if o.contains_key(k) && b.contains_key(k) {
                law_silence_keeps_base(b[k], o[k], path.skip(1));
            } else if o.contains_key(k) {
                lemma_silent_is_absent(o[k], path.skip(1));
            }
        },
        _ => {
            lemma_silent_is_absent(over, path);
        },
    }
}

/// A document that is silent on a path holds nothing at its end.
proof fn lemma_silent_is_absent(over: Doc, path: Seq<Seq<char>>)
    requires
        silent_on(over, path),
    ensures
        at(over, path) is None,
    decreases path.len(),
{
    let o = over->Table_0;
    if o.contains_key(path[0]) {
        lemma_silent_is_absent(o[path[0]], path.skip(1));
    }
}

} // verus!
