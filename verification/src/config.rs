//! The configuration tree that says from which domain each part of a value is
//! drawn.

use vstd::prelude::*;

verus! {

/// A number of a configuration, by the two ways in which it can be read.
#[derive(Clone, Copy, Debug, PartialEq, Eq)]
pub struct Number {
    /// The number as a signed 64-bit integer, if it is one.
    pub as_integer: Option<i64>,
    /// The number as a double, given by its IEEE-754 bit pattern.
    pub as_float_bits: Option<u64>,
}

/// A node of a configuration tree.
#[derive(Debug, PartialEq, Eq)]
pub enum ConfigNode {
    Null,
    Bool(bool),
    Number(Number),
    Text(String),
    Array(Vec<ConfigNode>),
    /// Keyed nodes. A key is looked up by its exact name; where a key occurs
    /// more than once, its first entry counts.
    Object(Vec<Entry>),
}

/// One keyed node of an object.
#[derive(Debug, PartialEq, Eq)]
pub struct Entry {
    pub key: String,
    pub node: ConfigNode,
}

impl ConfigNode {
    /// The node read as a signed 64-bit integer.
    pub open spec fn integer(self) -> Option<i64> {
        match self {
            ConfigNode::Number(n) => n.as_integer,
            _ => None,
        }
    }

    /// The node read as a double.
    pub open spec fn float_bits(self) -> Option<u64> {
        match self {
            ConfigNode::Number(n) => n.as_float_bits,
            _ => None,
        }
    }

    /// The node read as a string.
    pub open spec fn text(self) -> Option<Seq<char>> {
        match self {
            ConfigNode::Text(s) => Some(s@),
            _ => None,
        }
    }

    /// The node read as a boolean.
    pub open spec fn truth(self) -> Option<bool> {
        match self {
            ConfigNode::Bool(b) => Some(b),
            _ => None,
        }
    }
}

/// The node that a reference found, if any.
pub open spec fn held(found: Option<&ConfigNode>) -> Option<ConfigNode> {
    match found {
        Some(node) => Some(*node),
        None => None,
    }
}

/// The position of the first entry at or after `start` with the given key.
pub open spec fn position_from(entries: Seq<Entry>, key: Seq<char>, start: int) -> Option<int>
    decreases entries.len() - start,
{
    if start < 0 || start >= entries.len() {
        None
    } else if entries[start].key@ == key {
        Some(start)
    } else {
        position_from(entries, key, start + 1)
    }
}

/// The node under a key: that of the first entry with the key.
pub open spec fn lookup(entries: Seq<Entry>, key: Seq<char>) -> Option<ConfigNode> {
    match position_from(entries, key, 0) {
        Some(i) => Some(entries[i].node),
        None => None,
    }
}

/// The entries of the node, where it is an object.
pub open spec fn entries_of(node: Option<ConfigNode>) -> Option<Seq<Entry>> {
    match node {
        Some(ConfigNode::Object(entries)) => Some(entries@),
        _ => None,
    }
}

/// Looks a key up among the entries of an object.
pub fn find<'a>(entries: &'a Vec<Entry>, key: &String) -> (found: Option<&'a ConfigNode>)
    ensures
        held(found) == lookup(entries@, key@),
{
    let mut i: usize = 0;
    while i < entries.len()
        invariant
            i <= entries.len(),
            position_from(entries@, key@, 0) == position_from(entries@, key@, i as int),
        decreases entries.len() - i,
    {
        if entries[i].key == *key {
            return Some(&entries[i].node);
        }
        i += 1;
    }
    None
}

/// Whether no two entries share a key.
pub open spec fn distinct_keys(entries: Seq<Entry>) -> bool {
    forall|i: int, j: int|
        0 <= i < j < entries.len() ==> (#[trigger] entries[i]).key@ != (#[trigger] entries[j]).key@
}

/// Whether the tree is well formed: in each of its objects, the keys are
/// unique.
pub open spec fn well_keyed(node: ConfigNode) -> bool
    decreases node, 0nat,
{
    match node {
        ConfigNode::Array(items) => items_well_keyed(items@),
        ConfigNode::Object(entries) => entries_well_keyed(entries@),
        _ => true,
    }
}

/// Whether every item is well formed.
pub open spec fn items_well_keyed(items: Seq<ConfigNode>) -> bool
    decreases items, 0nat,
{
    forall|i: int| 0 <= i < items.len() ==> well_keyed(#[trigger] items[i])
}

/// Whether the entries have unique keys and well-formed nodes.
pub open spec fn entries_well_keyed(entries: Seq<Entry>) -> bool
    decreases entries, 0nat,
{
    &&& distinct_keys(entries)
    &&& forall|i: int| 0 <= i < entries.len() ==> well_keyed((#[trigger] entries[i]).node)
}

/// Whether no two entries share a key.
pub fn has_distinct_keys(entries: &Vec<Entry>) -> (r: bool)
    ensures
        r == distinct_keys(entries@),
{
    let mut j: usize = 0;
    while j < entries.len()
        invariant
            j <= entries.len(),
            forall|a: int, b: int|
                0 <= a < b < j ==> (#[trigger] entries@[a]).key@ != (#[trigger] entries@[b]).key@,
        decreases entries.len() - j,
    {
        let mut i: usize = 0;
        while i < j
            invariant
                i <= j < entries.len(),
                forall|a: int|
                    0 <= a < i ==> (#[trigger] entries@[a]).key@ != entries@[j as int].key@,
            decreases j - i,
        {
            if entries[i].key == entries[j].key {
                return false;
            }
            i += 1;
        }
        j += 1;
    }
    true
}

/// Whether the tree is well formed.
pub fn is_well_keyed(node: &ConfigNode) -> (r: bool)
    ensures
        r == well_keyed(*node),
    decreases node, 0nat,
{
    match node {
        ConfigNode::Array(items) => are_items_well_keyed(items),
        ConfigNode::Object(entries) => are_entries_well_keyed(entries),
        _ => true,
    }
}

/// Whether every item is well formed.
pub fn are_items_well_keyed(items: &Vec<ConfigNode>) -> (r: bool)
    ensures
        r == items_well_keyed(items@),
    decreases items, 0nat,
{
    let mut i: usize = 0;
    while i < items.len()
        invariant
            i <= items.len(),
            forall|k: int| 0 <= k < i ==> well_keyed(#[trigger] items@[k]),
        decreases items.len() - i,
    {
        proof {
            assert(decreases_to!(*items => items@[i as int]));
        }
        if !is_well_keyed(&items[i]) {
            return false;
        }
        i += 1;
    }
    true
}

/// Whether the entries have unique keys and well-formed nodes.
pub fn are_entries_well_keyed(entries: &Vec<Entry>) -> (r: bool)
    ensures
        r == entries_well_keyed(entries@),
    decreases entries, 0nat,
{
    if !has_distinct_keys(entries) {
        return false;
    }
    let mut i: usize = 0;
    while i < entries.len()
        invariant
            i <= entries.len(),
            forall|k: int| 0 <= k < i ==> well_keyed((#[trigger] entries@[k]).node),
        decreases entries.len() - i,
    {
        proof {
            assert(decreases_to!(*entries => entries@[i as int].node));
        }
        if !is_well_keyed(&entries[i].node) {
            return false;
        }
        i += 1;
    }
    true
}

/// The first entry at or after `start` with the key of the entry at `at` is
/// the one at `at`, where no entry between the two has the key.
proof fn lemma_position_from(entries: Seq<Entry>, start: int, at: int)
    requires
        0 <= start <= at < entries.len(),
        forall|k: int| start <= k < at ==> (#[trigger] entries[k]).key@ != entries[at].key@,
    ensures
        position_from(entries, entries[at].key@, start) == Some(at),
    decreases at - start,
{
    if start < at {
        assert(entries[start].key@ != entries[at].key@);
        lemma_position_from(entries, start + 1, at);
    }
}

/// Among entries with unique keys, each key leads to the node of its own
/// entry.
pub proof fn law_lookup_own_key(entries: Seq<Entry>, at: int)
    requires
        distinct_keys(entries),
        0 <= at < entries.len(),
    ensures
        lookup(entries, entries[at].key@) == Some(entries[at].node),
{
    lemma_position_from(entries, 0, at);
}

/// A key leads to a node exactly when some entry has the key, and then to
/// the node of the first such entry.
pub proof fn law_lookup_first(entries: Seq<Entry>, key: Seq<char>)
    ensures
        lookup(entries, key) is None <==> forall|i: int|
            0 <= i < entries.len() ==> (#[trigger] entries[i]).key@ != key,
        lookup(entries, key) is Some ==> exists|i: int|
            {
                &&& 0 <= i < entries.len()
                &&& (#[trigger] entries[i]).key@ == key
                &&& lookup(entries, key) == Some(entries[i].node)
                &&& forall|j: int| 0 <= j < i ==> (#[trigger] entries[j]).key@ != key
            },
{
    lemma_first_from(entries, key, 0);
    if let Some(i) = position_from(entries, key, 0) {
        assert(entries[i].key@ == key);
    }
}

/// What `position_from` finds is the first entry with the key at or after
/// `start`, and it finds none only if there is none.
proof fn lemma_first_from(entries: Seq<Entry>, key: Seq<char>, start: int)
    requires
        0 <= start <= entries.len(),
    ensures
        match position_from(entries, key, start) {
            Some(i) => {
                &&& start <= i < entries.len()
                &&& entries[i].key@ == key
                &&& forall|j: int| start <= j < i ==> (#[trigger] entries[j]).key@ != key
            },
            None => forall|j: int|
                start <= j < entries.len() ==> (#[trigger] entries[j]).key@ != key,
        },
    decreases entries.len() - start,
{
    if start < entries.len() && entries[start].key@ != key {
        lemma_first_from(entries, key, start + 1);
    }
}

} // verus!
