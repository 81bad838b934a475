//! Layers of configuration: sequences of keyed entries that build a tree, in
//! which a later entry takes the place of an earlier one.

use vstd::prelude::*;
use vstd::std_specs::iter::IteratorSpec;
use config::Config;

verus! {

/// What a configuration document holds under a key.
#[derive(Debug, PartialEq, Eq)]
pub enum Value {
    /// A single value, as its text.
    Scalar(String),
    /// A table without entries.
    Empty,
    /// A table with entries, a list or nothing at all: no single value.
    Structured,
}

/// A `Value` as mathematical text.
pub enum ValueView {
    Scalar(Seq<char>),
    Empty,
    Structured,
}

impl View for Value {
    type V = ValueView;

    open spec fn view(&self) -> ValueView {
        match self {
            Value::Scalar(text) => ValueView::Scalar(text@),
            Value::Empty => ValueView::Empty,
            Value::Structured => ValueView::Structured,
        }
    }
}

/// A key of a layer and the value under it. A key that is a path leads
/// from a name at the top of the tree to the value below it.
#[derive(Debug, PartialEq, Eq)]
pub struct Entry {
    pub key: String,
    pub value: Value,
}

/// An `Entry` as mathematical text.
pub struct EntryView {
    pub key: Seq<char>,
    pub value: ValueView,
}

impl View for Entry {
    type V = EntryView;

    open spec fn view(&self) -> EntryView {
        EntryView { key: self.key@, value: self.value@ }
    }
}

/// The views of a sequence of entries.
pub open spec fn entry_views(entries: Seq<Entry>) -> Seq<EntryView> {
    entries.map_values(|e: Entry| e@)
}

/// The view of a value that may be absent.
pub open spec fn value_view(value: Option<Value>) -> Option<ValueView> {
    match value {
        Some(v) => Some(v@),
        None => None,
    }
}

/// What delimits the names of a path.
pub const DELIMITER: char = '.';

/// What opens the place of an item of a list in a path.
pub const SUBSCRIPT: char = '[';

/// Whether `config` reads `key` as a path into the tree.
pub uninterp spec fn is_path(key: Seq<char>) -> bool;

/// Asks `config::ConfigBuilder::set_override` whether it reads `key` as a
/// path: the call succeeds exactly where it does. It keeps the key with
/// the builder, which is dropped; no tree is built. The contract claims
/// that the answer depends on the key alone.
#[verifier::external_body]
fn parses_as_path(key: &str) -> (ok: bool)
    ensures
        ok == is_path(key@),
{
    Config::builder().set_override(key, key).is_ok()
}

/// How a key stands to a name at the top of the tree.
#[derive(Clone, Copy, Debug, PartialEq, Eq, Structural)]
pub enum Reach {
    /// The key is the name.
    Onto,
    /// The key is a path that begins with the name and goes on below it.
    Below,
    /// The key leads elsewhere.
    Past,
}

/// Whether `key` is `name`, then the sign of a name or of a place, and
/// whatever follows.
pub open spec fn goes_on_after(key: Seq<char>, name: Seq<char>) -> bool {
    &&& key.len() > name.len()
    &&& key.take(name.len() as int) == name
    &&& (key[name.len() as int] == DELIMITER || key[name.len() as int] == SUBSCRIPT)
}

/// Whether `key` is a path that begins with `name` and goes on below it.
pub open spec fn leads_below(key: Seq<char>, name: Seq<char>) -> bool {
    goes_on_after(key, name) && is_path(key)
}

/// How `key` stands to `name`.
pub open spec fn reach_of(key: Seq<char>, name: Seq<char>) -> Reach {
    if key == name {
        Reach::Onto
    } else if leads_below(key, name) {
        Reach::Below
    } else {
        Reach::Past
    }
}

/// Whether `name` is one name and no path: it holds neither the sign of a
/// name nor that of a place.
pub open spec fn is_top_level(name: Seq<char>) -> bool {
    forall|i: int|
        0 <= i < name.len() ==> #[trigger] name[i] != DELIMITER && name[i] != SUBSCRIPT
}

/// What `entry` puts under `name`: its value where its key is the name, a
/// subtree where its key leads below the name, nothing otherwise.
pub open spec fn put_under(entry: EntryView, name: Seq<char>) -> Option<ValueView> {
    match reach_of(entry.key, name) {
        Reach::Onto => Some(entry.value),
        Reach::Below => Some(ValueView::Structured),
        Reach::Past => None,
    }
}

/// What stands under a name once `upper` is put over `lower`: a table
/// without entries leaves in place what it finds, and anything else takes
/// the place of what was there.
pub open spec fn over(lower: Option<ValueView>, upper: Option<ValueView>) -> Option<ValueView> {
    match upper {
        None => lower,
        Some(ValueView::Empty) => if lower is Some {
            lower
        } else {
            upper
        },
        Some(_) => upper,
    }
}

/// What stands under `name`, a name at the top of the tree, once `entries`
/// are applied in their order.
pub open spec fn lookup(entries: Seq<EntryView>, name: Seq<char>) -> Option<ValueView>
    recommends
        is_top_level(name),
    decreases entries.len(),
{
    if entries.len() == 0 {
        None
    } else {
        over(lookup(entries.drop_last(), name), put_under(entries.last(), name))
    }
}

/// Two layers laid one over the other give what the upper one puts over
/// what the lower one gives.
pub proof fn lemma_lookup_layered(lower: Seq<EntryView>, upper: Seq<EntryView>, name: Seq<char>)
    ensures
        lookup(lower + upper, name) == over(lookup(lower, name), lookup(upper, name)),
    decreases upper.len(),
{
    if upper.len() == 0 {
        assert(lower + upper =~= lower);
    } else {
        assert((lower + upper).last() == upper.last());
        assert((lower + upper).drop_last() =~= lower + upper.drop_last());
        lemma_lookup_layered(lower, upper.drop_last(), name);
    }
}

/// What is neither absent nor a table without entries takes the place of
/// whatever lies below it.
pub open spec fn decides(value: Option<ValueView>) -> bool {
    value is Some && value != Some(ValueView::Empty)
}

/// How `key` stands to `name`: found in one pass over both, and where the
/// key goes on after the name, by asking whether it is a path.
pub fn reach(key: &str, name: &str) -> (r: Reach)
    ensures
        r == reach_of(key@, name@),
{
    let mut key_rest = key.chars();
    let mut name_rest = name.chars();
    let ghost mut seen: int = 0;
    loop
        invariant
            key_rest.obeys_prophetic_iter_laws(),
            name_rest.obeys_prophetic_iter_laws(),
            0 <= seen <= key@.len(),
            seen <= name@.len(),
            key@.take(seen) == name@.take(seen),
            key_rest.remaining() == key@.skip(seen),
            name_rest.remaining() == name@.skip(seen),
        decreases name@.len() - seen,
    {
        match name_rest.next() {
            None => {
                assert(name@.take(seen) =~= name@);
                return match key_rest.next() {
                    None => {
                        assert(key@.take(seen) =~= key@);
                        Reach::Onto
                    },
                    Some(c) => {
                        assert(c == key@[seen]);
                        if (c == DELIMITER || c == SUBSCRIPT) && parses_as_path(key) {
                            Reach::Below
                        } else {
                            Reach::Past
                        }
                    },
                };
            },
            Some(wanted) => {
                assert(wanted == name@[seen]);
                match key_rest.next() {
                    None => {
                        assert(key@.len() == seen);
                        return Reach::Past;
                    },
                    Some(c) => {
                        assert(c == key@[seen]);
                        if c != wanted {
                            assert(key@ != name@);
                            assert(!goes_on_after(key@, name@)) by {
                                if key@.len() > name@.len() {
                                    assert(key@.take(name@.len() as int)[seen] == c);
                                }
                            }
                            return Reach::Past;
                        }
                        assert(key@.skip(seen).drop_first() =~= key@.skip(seen + 1));
                        assert(name@.skip(seen).drop_first() =~= name@.skip(seen + 1));
                        assert(key@.take(seen + 1) =~= key@.take(seen).push(c));
                        assert(name@.take(seen + 1) =~= name@.take(seen).push(wanted));
                        proof {
                            seen = seen + 1;
                        }
                    },
                }
            },
        }
    }
}

impl Value {
    /// A value that holds the same.
    pub fn copy(&self) -> (other: Value)
        ensures
            other@ == self@,
    {
        match self {
            Value::Scalar(text) => Value::Scalar(text.clone()),
            Value::Empty => Value::Empty,
            Value::Structured => Value::Structured,
        }
    }
}

/// What stands under a name once `upper` is put over `lower`.
pub fn put_over(lower: Option<Value>, upper: Option<Value>) -> (value: Option<Value>)
    ensures
        value_view(value) == over(value_view(lower), value_view(upper)),
{
    match upper {
        None => lower,
        Some(Value::Empty) => if lower.is_some() {
            lower
        } else {
            Some(Value::Empty)
        },
        Some(other) => Some(other),
    }
}

/// What one entry puts under `name`.
pub fn put(entry: &Entry, name: &str) -> (value: Option<Value>)
    ensures
        value_view(value) == put_under(entry@, name@),
{
    match reach(entry.key.as_str(), name) {
        Reach::Onto => Some(entry.value.copy()),
        Reach::Below => Some(Value::Structured),
        Reach::Past => None,
    }
}

/// What stands under `name`, a name at the top of the tree, once `entries`
/// are applied in their order.
pub fn find(entries: &Vec<Entry>, name: &str) -> (found: Option<Value>)
    ensures
        value_view(found) == lookup(entry_views(entries@), name@),
{
    let ghost views = entry_views(entries@);
    let mut found: Option<Value> = None;
    let mut i: usize = 0;
    while i < entries.len()
        invariant
            i <= entries.len(),
            views == entry_views(entries@),
            value_view(found) == lookup(views.take(i as int), name@),
        decreases entries.len() - i,
    {
        assert(views.take(i + 1).last() == entries@[i as int]@);
        assert(views.take(i + 1).drop_last() =~= views.take(i as int));
        found = put_over(found, put(&entries[i], name));
        i = i + 1;
    }
    assert(views.take(i as int) =~= views);
    found
}

} // verus!
