use vstd::prelude::*;

use crate::node::Node;

verus! {

/// The texts of the string items of `items`, in order; other items are left out.
pub open spec fn string_items(items: Seq<Node>) -> Seq<Seq<char>>
    decreases items.len(),
{
    if items.len() == 0 {
        seq![]
    } else {
        let rest = string_items(items.drop_last());
        match items.last() {
            Node::Str(s) => rest.push(s@),
            _ => rest,
        }
    }
}

/// `parts` joined with `:` between neighbours; empty for no parts.
pub open spec fn join_colon(parts: Seq<Seq<char>>) -> Seq<char>
    decreases parts.len(),
{
    if parts.len() == 0 {
        seq![]
    } else if parts.len() == 1 {
        parts[0]
    } else {
        join_colon(parts.drop_last()) + ":"@ + parts.last()
    }
}

/// The exported value of a node: a string as it stands, a list as its
/// string items joined by `:`, and nothing for any other node.
pub open spec fn export_value_of(v: Node) -> Option<Seq<char>> {
    match v {
        Node::Str(s) => Some(s@),
        Node::List(items) => Some(join_colon(string_items(items@))),
        _ => None,
    }
}

/// The line `export NAME="VALUE"`.
pub open spec fn export_line(name: Seq<char>, value: Seq<char>) -> Seq<char> {
    "export "@ + name + "=\""@ + value + "\""@
}

/// The line of one mapping entry, or nothing when its key is not a string
/// or its value has no exported form.
pub open spec fn entry_line(key: Node, value: Node) -> Option<Seq<char>> {
    match key {
        Node::Str(name) => match export_value_of(value) {
            Some(v) => Some(export_line(name@, v)),
            None => None,
        },
        _ => None,
    }
}

/// The lines of all entries that have one, in entry order.
pub open spec fn export_lines(entries: Seq<(Node, Node)>) -> Seq<Seq<char>>
    decreases entries.len(),
{
    if entries.len() == 0 {
        seq![]
    } else {
        let rest = export_lines(entries.drop_last());
        match entry_line(entries.last().0, entries.last().1) {
            Some(l) => rest.push(l),
            None => rest,
        }
    }
}

/// The texts of a vector of strings.
pub open spec fn texts(lines: Seq<String>) -> Seq<Seq<char>> {
    lines.map_values(|s: String| s@)
}

/// Joins the string items of `items` with `:`, skipping every other item.
pub fn join_string_items(items: &Vec<Node>) -> (r: String)
    ensures
        r@ == join_colon(string_items(items@)),
{
    let mut out = String::new();
    let mut first = true;
    let mut i: usize = 0;
    while i < items.len()
        invariant
            i <= items@.len(),
            out@ == join_colon(string_items(items@.take(i as int))),
            first <==> string_items(items@.take(i as int)).len() == 0,
        decreases items@.len() - i,
    {
        assert(items@.take(i + 1).drop_last() == items@.take(i as int));
        let ghost parts = string_items(items@.take(i as int));
        match &items[i] {
            Node::Str(s) => {
                assert(string_items(items@.take(i + 1)) == parts.push(s@));
                assert(parts.push(s@).drop_last() == parts);
                if !first {
                    out.append(":");
                } else {
                    assert(out@ == Seq::<char>::empty());
                }
                out.append(s.as_str());
                first = false;
            },
            _ => {},
        }
        i = i + 1;
    }
    assert(items@.take(items@.len() as int) == items@);
    out
}

/// The exported value of a node: a string as it stands, a list as its string
/// items joined by `:`, and `None` for any other node.
pub fn export_value(value: &Node) -> (r: Option<String>)
    ensures
        match export_value_of(*value) {
            Some(v) => r matches Some(t) && t@ == v,
            None => r is None,
        },
{
    match value {
        Node::Str(s) => Some(s.clone()),
        Node::List(items) => Some(join_string_items(items)),
        _ => None,
    }
}

/// The `export NAME="VALUE"` line of one mapping entry, or `None` when the key
/// is not a string or the value is neither a string nor a list.
pub fn render_entry(key: &Node, value: &Node) -> (r: Option<String>)
    ensures
        match entry_line(*key, *value) {
            Some(l) => r matches Some(t) && t@ == l,
            None => r is None,
        },
{
    match key {
        Node::Str(name) => match export_value(value) {
            Some(v) => {
                let mut line = String::new();
                line.append("export ");
                line.append(name.as_str());
                line.append("=\"");
                line.append(v.as_str());
                line.append("\"");
                assert(line@ == export_line(name@, v@));
                Some(line)
            },
            None => None,
        },
        _ => None,
    }
}

/// The export lines of all entries that have one, in entry order.
pub fn render_exports(entries: &Vec<(Node, Node)>) -> (r: Vec<String>)
    ensures
        texts(r@) == export_lines(entries@),
{
    let mut lines: Vec<String> = Vec::new();
    let mut i: usize = 0;
    while i < entries.len()
        invariant
            i <= entries@.len(),
            texts(lines@) == export_lines(entries@.take(i as int)),
        decreases entries@.len() - i,
    {
        assert(entries@.take(i + 1).drop_last() == entries@.take(i as int));
        let (key, value) = &entries[i];
        match render_entry(key, value) {
            Some(line) => {
                let ghost before = lines@;
                lines.push(line);
                assert(texts(lines@) == texts(before).push(line@));
            },
            None => {},
        }
        i = i + 1;
    }
    assert(entries@.take(entries@.len() as int) == entries@);
    lines
}

} // verus!
