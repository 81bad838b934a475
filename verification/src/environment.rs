//! The layer of overrides that the process environment gives.

use vstd::prelude::*;
use config::{Environment, Source};
use crate::layer::{entry_views, lookup, put_under, Entry, EntryView, Value, ValueView};

verus! {

/// The configuration key under which `config::Environment`, made with the
/// prefix `prefix` and the separator `separator`, files a variable named
/// `name`; `None` where it passes the variable over.
pub uninterp spec fn environment_key(
    prefix: Seq<char>,
    separator: Seq<char>,
    name: Seq<char>,
) -> Option<Seq<char>>;

/// Hands one variable to `config::Environment::collect`, with the prefix and
/// the separator given, and returns the entry that comes out of it. The
/// contract claims that the key depends on prefix, separator and name alone,
/// and that the value comes out as it went in.
#[verifier::external_body]
fn collect_variable(prefix: &str, separator: &str, name: &str, value: &str) -> (entry: Option<
    (String, String),
>)
    ensures
        entry matches Some(e) ==> environment_key(prefix@, separator@, name@) == Some(e.0@),
        entry matches Some(e) ==> e.1@ == value@,
        entry is None ==> environment_key(prefix@, separator@, name@) is None,
{
    let mut variables = config::Map::new();
    variables.insert(name.to_string(), value.to_string());
    let environment = Environment::with_prefix(prefix).separator(separator).source(Some(variables));
    match environment.collect() {
        Ok(entries) => match entries.into_iter().next() {
            Some((key, value)) => value.into_string().ok().map(|text| (key, text)),
            None => None,
        },
        Err(_) => None,
    }
}

/// One variable of the process environment.
#[derive(Debug, PartialEq, Eq)]
pub struct Variable {
    pub name: String,
    pub value: String,
}

/// A `Variable` as mathematical text.
pub struct VariableView {
    pub name: Seq<char>,
    pub value: Seq<char>,
}

impl View for Variable {
    type V = VariableView;

    open spec fn view(&self) -> VariableView {
        VariableView { name: self.name@, value: self.value@ }
    }
}

/// The views of a sequence of variables.
pub open spec fn variable_views(variables: Seq<Variable>) -> Seq<VariableView> {
    variables.map_values(|v: Variable| v@)
}

/// The layer that `variables` make: one entry for each variable that has a
/// key under `prefix` and `separator`, in the order of the variables, so
/// that of two variables with one key the later one counts.
pub open spec fn environment_entries(
    prefix: Seq<char>,
    separator: Seq<char>,
    variables: Seq<VariableView>,
) -> Seq<EntryView>
    decreases variables.len(),
{
    if variables.len() == 0 {
        Seq::empty()
    } else {
        let earlier = environment_entries(prefix, separator, variables.drop_last());
        match environment_key(prefix, separator, variables.last().name) {
            Some(key) => earlier.push(
                EntryView { key, value: ValueView::Scalar(variables.last().value) },
            ),
            None => earlier,
        }
    }
}

/// What `variable` puts under `name` in the environment's layer.
pub open spec fn variable_puts(
    prefix: Seq<char>,
    separator: Seq<char>,
    variable: VariableView,
    name: Seq<char>,
) -> Option<ValueView> {
    match environment_key(prefix, separator, variable.name) {
        Some(key) => put_under(EntryView { key, value: ValueView::Scalar(variable.value) }, name),
        None => None,
    }
}

/// Whether `variables[i]` is the last variable that puts anything under
/// `name`.
pub open spec fn is_last_under(
    prefix: Seq<char>,
    separator: Seq<char>,
    variables: Seq<VariableView>,
    name: Seq<char>,
    i: int,
) -> bool {
    &&& 0 <= i < variables.len()
    &&& variable_puts(prefix, separator, variables[i], name) is Some
    &&& forall|j: int|
        i < j < variables.len() ==> variable_puts(prefix, separator, #[trigger] variables[j], name)
            is None
}

/// Whether no variable puts anything under `name`.
pub open spec fn none_under(
    prefix: Seq<char>,
    separator: Seq<char>,
    variables: Seq<VariableView>,
    name: Seq<char>,
) -> bool {
    forall|j: int|
        0 <= j < variables.len() ==> variable_puts(prefix, separator, #[trigger] variables[j], name)
            is None
}

/// Under a name, the environment's layer holds what the last variable put
/// there that put anything there.
pub proof fn lemma_last_variable_counts(
    prefix: Seq<char>,
    separator: Seq<char>,
    variables: Seq<VariableView>,
    name: Seq<char>,
    i: int,
)
    requires
        is_last_under(prefix, separator, variables, name, i),
    ensures
        lookup(environment_entries(prefix, separator, variables), name) == variable_puts(
            prefix,
            separator,
            variables[i],
            name,
        ),
    decreases variables.len(),
{
    let entries = environment_entries(prefix, separator, variables);
    let earlier = variables.drop_last();
    if environment_key(prefix, separator, variables.last().name) is Some {
        assert(entries.drop_last() =~= environment_entries(prefix, separator, earlier));
    }
    if i < variables.len() - 1 {
        assert(variable_puts(prefix, separator, variables[variables.len() - 1], name) is None);
        assert(is_last_under(prefix, separator, earlier, name, i)) by {
            assert forall|j: int| i < j < earlier.len() implies variable_puts(
                prefix,
                separator,
                #[trigger] earlier[j],
                name,
            ) is None by {
                assert(earlier[j] == variables[j]);
            }
        }
        lemma_last_variable_counts(prefix, separator, earlier, name, i);
    }
}

/// Under a name under which no variable puts anything, the environment's
/// layer holds nothing.
pub proof fn lemma_no_variable_no_entry(
    prefix: Seq<char>,
    separator: Seq<char>,
    variables: Seq<VariableView>,
    name: Seq<char>,
)
    requires
        none_under(prefix, separator, variables, name),
    ensures
        lookup(environment_entries(prefix, separator, variables), name) is None,
    decreases variables.len(),
{
    if variables.len() > 0 {
        let entries = environment_entries(prefix, separator, variables);
        let earlier = variables.drop_last();
        if environment_key(prefix, separator, variables.last().name) is Some {
            assert(entries.drop_last() =~= environment_entries(prefix, separator, earlier));
        }
        assert(variable_puts(prefix, separator, variables[variables.len() - 1], name) is None);
        assert(none_under(prefix, separator, earlier, name)) by {
            assert forall|j: int| 0 <= j < earlier.len() implies variable_puts(
                prefix,
                separator,
                #[trigger] earlier[j],
                name,
            ) is None by {
                assert(earlier[j] == variables[j]);
            }
        }
        lemma_no_variable_no_entry(prefix, separator, earlier, name);
    }
}

/// Builds the layer of overrides from the variables of the environment.
pub fn environment_layer(prefix: &str, separator: &str, variables: &Vec<Variable>) -> (layer: Vec<
    Entry,
>)
    ensures
        entry_views(layer@) == environment_entries(prefix@, separator@, variable_views(variables@)),
{
    let mut layer: Vec<Entry> = Vec::new();
    let ghost views = variable_views(variables@);
    let mut i: usize = 0;
    while i < variables.len()
        invariant
            i <= variables.len(),
            views == variable_views(variables@),
            entry_views(layer@) == environment_entries(prefix@, separator@, views.take(i as int)),
        decreases variables.len() - i,
    {
        let variable = &variables[i];
        assert(views.take(i + 1).last() == variable@);
        assert(views.take(i + 1).drop_last() =~= views.take(i as int));
        let ghost before = entry_views(layer@);
        match collect_variable(prefix, separator, variable.name.as_str(), variable.value.as_str()) {
            Some(found) => {
                let (key, text) = found;
                let entry = Entry { key, value: Value::Scalar(text) };
                layer.push(entry);
                assert(entry_views(layer@) =~= before.push(entry@));
            },
            None => {},
        }
        i = i + 1;
    }
    assert(views.take(i as int) =~= views);
    layer
}

} // verus!
