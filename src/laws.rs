use vstd::prelude::*;

use crate::config::rendered_config;
use crate::node::Node;
use crate::render::{entry_line, export_line, export_lines, join_colon, string_items};

verus! {

/// An entry with a string key whose value is a string or a list of strings.
pub open spec fn qualifies(key: Node, value: Node) -> bool {
    &&& key is Str
    &&& (value is Str || (value is List && forall|j: int|
        0 <= j < value->List_0@.len() ==> (#[trigger] value->List_0@[j]) is Str))
}

/// The text of a string node.
pub open spec fn text_of(n: Node) -> Seq<char> {
    n->Str_0@
}

/// The value of a string, or of a list of strings: the text, or the
/// items' texts joined by `:`.
pub open spec fn plain_value(v: Node) -> Seq<char> {
    match v {
        Node::List(items) => join_colon(items@.map_values(|n: Node| text_of(n))),
        _ => text_of(v),
    }
}

/// A list whose items are all strings exports all their texts joined by `:`.
pub proof fn lemma_string_list_joined(items: Seq<Node>)
    requires
        forall|j: int| 0 <= j < items.len() ==> (#[trigger] items[j]) is Str,
    ensures
        string_items(items) == items.map_values(|n: Node| text_of(n)),
    decreases items.len(),
{
    if items.len() > 0 {
        let d = items.drop_last();
        assert forall|j: int| 0 <= j < d.len() implies (#[trigger] d[j]) is Str by {
            assert(d[j] == items[j]);
        }
        lemma_string_list_joined(d);
        assert(items.map_values(|n: Node| text_of(n)) == d.map_values(|n: Node| text_of(n)).push(
            text_of(items.last()),
        ));
    }
}

/// When every entry has a string key and a string or list-of-strings value,
/// there is exactly one line per entry, in entry order, and line `i` is
/// `export NAME="VALUE"` with the key of entry `i` and its value, a list's
/// items joined by `:`.
pub proof fn lemma_one_line_per_entry(entries: Seq<(Node, Node)>)
    requires
        forall|i: int| 0 <= i < entries.len() ==> #[trigger] qualifies(entries[i].0, entries[i].1),
    ensures
        export_lines(entries).len() == entries.len(),
        forall|i: int|
            0 <= i < entries.len() ==> #[trigger] export_lines(entries)[i] == export_line(
                text_of(entries[i].0),
                plain_value(entries[i].1),
            ),
    decreases entries.len(),
{
    if entries.len() > 0 {
        let d = entries.drop_last();
        assert forall|i: int| 0 <= i < d.len() implies #[trigger] qualifies(d[i].0, d[i].1) by {
            assert(d[i] == entries[i]);
        }
        lemma_one_line_per_entry(d);
        let last = entries.len() - 1;
        assert(entries.last() == entries[last]);
        assert(qualifies(entries[last].0, entries[last].1));
        assert(entry_line(entries[last].0, entries[last].1) is Some);
        assert forall|i: int| 0 <= i < entries.len() implies #[trigger] export_lines(entries)[i]
            == export_line(text_of(entries[i].0), plain_value(entries[i].1)) by {
            assert(qualifies(entries[i].0, entries[i].1));
            if let Node::List(items) = entries[i].1 {
                lemma_string_list_joined(items@);
            }
            if i < d.len() {
                assert(d[i] == entries[i]);
            }
        }
    }
}

/// An entry without a line of its own adds no line: removing it leaves the
/// lines of the other entries as they were.
pub proof fn lemma_skipped_entry_adds_no_line(entries: Seq<(Node, Node)>, i: int)
    requires
        0 <= i < entries.len(),
        entry_line(entries[i].0, entries[i].1) is None,
    ensures
        export_lines(entries.remove(i)) == export_lines(entries),
    decreases entries.len(),
{
    if i == entries.len() - 1 {
        assert(entries.remove(i) == entries.drop_last());
    } else {
        let d = entries.drop_last();
        assert(d[i] == entries[i]);
        lemma_skipped_entry_adds_no_line(d, i);
        assert(entries.remove(i).drop_last() == d.remove(i));
        assert(entries.remove(i).last() == entries.last());
    }
}

/// An entry whose value is a scalar other than a string (an integer, a real,
/// a boolean or null) produces no line.
pub proof fn lemma_non_string_scalar_no_line(entries: Seq<(Node, Node)>, i: int)
    requires
        0 <= i < entries.len(),
        entries[i].1 is Integer || entries[i].1 is Real || entries[i].1 is Boolean
            || entries[i].1 is Null,
    ensures
        entry_line(entries[i].0, entries[i].1) is None,
        export_lines(entries.remove(i)) == export_lines(entries),
{
    lemma_skipped_entry_adds_no_line(entries, i);
}

/// An entry whose key is not a string produces no line, whatever its value.
pub proof fn lemma_non_string_key_no_line(entries: Seq<(Node, Node)>, i: int)
    requires
        0 <= i < entries.len(),
        !(entries[i].0 is Str),
    ensures
        entry_line(entries[i].0, entries[i].1) is None,
        export_lines(entries.remove(i)) == export_lines(entries),
{
    lemma_skipped_entry_adds_no_line(entries, i);
}

/// Rendering the same text twice gives the same outcome: the same lines, or
/// an error both times.
pub proof fn lemma_render_repeatable(first: Seq<char>, second: Seq<char>)
    requires
        first == second,
    ensures
        rendered_config(first) == rendered_config(second),
{
}

} // verus!
