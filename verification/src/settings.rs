//! The settings of the service and their resolution from layered sources.

use vstd::prelude::*;
use crate::environment::{
    environment_entries,
    is_last_under,
    lemma_last_variable_counts,
    lemma_no_variable_no_entry,
    none_under,
    variable_puts,
    VariableView,
};
use crate::error::{ResolutionError, ResolutionErrorView};
use crate::layer::{
    decides,
    entry_views,
    is_top_level,
    lemma_lookup_layered,
    lookup,
    EntryView,
    Value,
    ValueView,
};
use crate::port::{parse_port, port_of};
use crate::text::text_of;
use crate::source::{
    selection_of,
    ConfigSource,
    ConfigSourceView,
    FileLayerView,
    SelectionView,
    SelectorView,
};

verus! {

/// The variable of the environment that selects a profile.
pub const ENVIRONMENT: &'static str = "ENVIRONMENT";

/// The file of the base layer.
pub const BASE_FILE: &'static str = "config/default";

/// What stands before a selector in the name of its profile file.
pub const PROFILE_DIRECTORY: &'static str = "config/";

/// The prefix of the variables that override the files.
pub const PREFIX: &'static str = "app";

/// What separates the prefix from a key, and the segments of a nested key.
pub const SEPARATOR: &'static str = "__";

/// An IP address as a number, its first octet in the highest place.
#[derive(Clone, Copy, Debug, PartialEq, Eq, Structural)]
pub enum IpAddress {
    V4(u32),
    V6(u128),
}

/// Where the service listens.
#[derive(Clone, Copy, Debug, PartialEq, Eq, Structural)]
pub struct Settings {
    pub addr: IpAddress,
    pub port: u16,
}

/// A field of `Settings`.
#[derive(Clone, Copy, Debug, PartialEq, Eq, Structural)]
pub enum Field {
    Addr,
    Port,
}

impl Field {
    /// The key of the field in a layer.
    pub open spec fn key(self) -> Seq<char> {
        match self {
            Field::Addr => "addr"@,
            Field::Port => "port"@,
        }
    }

    /// The key of the field in a layer.
    pub fn name(self) -> (name: &'static str)
        ensures
            name@ == self.key(),
    {
        match self {
            Field::Addr => "addr",
            Field::Port => "port",
        }
    }
}

/// The keys of the fields are names at the top of the tree.
pub proof fn lemma_fields_are_top_level(field: Field)
    ensures
        is_top_level(field.key()),
{
    reveal_strlit("addr");
    reveal_strlit("port");
    assert(field.key().len() == 4);
}

/// The name of the profile file that `selector` selects.
pub fn profile_file(selector: &str) -> (file: String)
    ensures
        file@ == PROFILE_DIRECTORY@ + selector@,
{
    PROFILE_DIRECTORY.to_owned().concat(selector)
}

/// What the layers say of one field. Only a single value can be of a
/// field's type: a table or a list is none, with or without entries.
pub enum Reading<T> {
    /// No layer holds the field.
    Absent,
    /// The field's value is not one of its type; with its text, where it
    /// is a single value.
    Invalid(Option<Seq<char>>),
    /// The field's value.
    Valid(T),
}

/// What the layers say of the address. `parsed` is the address that the
/// literal denotes, `None` where it denotes none.
pub open spec fn read_addr(value: Option<ValueView>, parsed: Option<IpAddress>) -> Reading<
    IpAddress,
> {
    match value {
        None => Reading::Absent,
        Some(ValueView::Structured) => Reading::Invalid(None),
        Some(ValueView::Empty) => Reading::Invalid(None),
        Some(ValueView::Scalar(text)) => match parsed {
            Some(addr) => Reading::Valid(addr),
            None => Reading::Invalid(Some(text)),
        },
    }
}

/// What the layers say of the port.
pub open spec fn read_port(value: Option<ValueView>) -> Reading<u16> {
    match value {
        None => Reading::Absent,
        Some(ValueView::Structured) => Reading::Invalid(None),
        Some(ValueView::Empty) => Reading::Invalid(None),
        Some(ValueView::Scalar(text)) => match port_of(text) {
            Some(port) => Reading::Valid(port),
            None => Reading::Invalid(Some(text)),
        },
    }
}

/// The settings that two readings make. A value of the wrong type is
/// reported before a field that is absent, and the address before the port.
pub open spec fn typed(addr: Reading<IpAddress>, port: Reading<u16>) -> Result<
    Settings,
    ResolutionErrorView,
> {
    match (addr, port) {
        (Reading::Invalid(value), _) => Err(
            ResolutionErrorView::InvalidField { field: Field::Addr, value },
        ),
        (_, Reading::Invalid(value)) => Err(
            ResolutionErrorView::InvalidField { field: Field::Port, value },
        ),
        (Reading::Absent, _) => Err(ResolutionErrorView::MissingField { field: Field::Addr }),
        (_, Reading::Absent) => Err(ResolutionErrorView::MissingField { field: Field::Port }),
        (Reading::Valid(addr), Reading::Valid(port)) => Ok(Settings { addr, port }),
    }
}

/// The literal that stands for the address once the layers are merged;
/// `None` where a file that has to be there could not be read, or where
/// the layers give the address no single value.
pub open spec fn address_literal(source: ConfigSourceView) -> Option<Seq<char>> {
    match (source.file_error(), source.effective(Field::Addr.key())) {
        (None, Some(ValueView::Scalar(text))) => Some(text),
        _ => None,
    }
}

/// The outcome of resolving `source`, where `parsed` is the address that
/// `address_literal(source)` denotes.
pub open spec fn resolution(source: ConfigSourceView, parsed: Option<IpAddress>) -> Result<
    Settings,
    ResolutionErrorView,
> {
    match source.file_error() {
        Some(error) => Err(error),
        None => typed(
            read_addr(source.effective(Field::Addr.key()), parsed),
            read_port(source.effective(Field::Port.key())),
        ),
    }
}

/// The outcome of a resolution as mathematical text.
pub open spec fn outcome_view(outcome: Result<Settings, ResolutionError>) -> Result<
    Settings,
    ResolutionErrorView,
> {
    match outcome {
        Ok(settings) => Ok(settings),
        Err(error) => Err(error@),
    }
}

impl ConfigSource {
    /// The literal that stands for the address once the layers are merged.
    /// The caller finds the address that it denotes and hands it to
    /// `Settings::new`.
    pub fn address_literal(&self) -> (literal: Option<String>)
        ensures
            text_of(literal) == address_literal(self@),
    {
        if self.check_files().is_err() {
            return None;
        }
        proof {
            lemma_fields_are_top_level(Field::Addr);
        }
        match self.effective(Field::Addr.name()) {
            Some(Value::Scalar(text)) => Some(text),
            _ => None,
        }
    }
}

impl Settings {
    /// Resolves the settings from the layers of `source`: the base file,
    /// over it the file of the selected profile, over both the overrides of
    /// the environment. `parsed` is the address that the merged address
    /// literal denotes, `None` where it denotes none.
    pub fn new(source: &ConfigSource, parsed: Option<IpAddress>) -> (outcome: Result<
        Settings,
        ResolutionError,
    >)
        ensures
            outcome_view(outcome) == resolution(source@, parsed),
    {
        if let Err(error) = source.check_files() {
            return Err(error);
        }
        proof {
            lemma_fields_are_top_level(Field::Addr);
            lemma_fields_are_top_level(Field::Port);
        }
        let addr: Option<IpAddress> = match source.effective(Field::Addr.name()) {
            None => None,
            Some(Value::Structured) | Some(Value::Empty) => {
                return Err(ResolutionError::InvalidField { field: Field::Addr, value: None });
            },
            Some(Value::Scalar(text)) => match parsed {
                Some(addr) => Some(addr),
                None => {
                    return Err(
                        ResolutionError::InvalidField {
                            field: Field::Addr,
                            value: Some(text),
                        },
                    );
                },
            },
        };
        let port: Option<u16> = match source.effective(Field::Port.name()) {
            None => None,
            Some(Value::Structured) | Some(Value::Empty) => {
                return Err(ResolutionError::InvalidField { field: Field::Port, value: None });
            },
            Some(Value::Scalar(text)) => match parse_port(text.as_str()) {
                Some(port) => Some(port),
                None => {
                    return Err(
                        ResolutionError::InvalidField {
                            field: Field::Port,
                            value: Some(text),
                        },
                    );
                },
            },
        };
        match (addr, port) {
            (None, _) => Err(ResolutionError::MissingField { field: Field::Addr }),
            (_, None) => Err(ResolutionError::MissingField { field: Field::Port }),
            (Some(addr), Some(port)) => Ok(Settings { addr, port }),
        }
    }
}

/// A key that the environment overrides has the environment's value,
/// whatever the files hold under it.
pub proof fn lemma_environment_overrides_files(source: ConfigSourceView, key: Seq<char>)
    requires
        decides(lookup(source.overrides, key)),
    ensures
        source.effective(key) == lookup(source.overrides, key),
{
    lemma_lookup_layered(source.base.entries() + source.profile_entries(), source.overrides, key);
}

/// The last variable that puts anything under a key decides what the
/// layers give to the key, whatever the files and the earlier variables
/// hold.
pub proof fn lemma_variable_overrides_files(
    source: ConfigSourceView,
    variables: Seq<VariableView>,
    key: Seq<char>,
    i: int,
)
    requires
        source.overrides == environment_entries(PREFIX@, SEPARATOR@, variables),
        is_last_under(PREFIX@, SEPARATOR@, variables, key, i),
    ensures
        source.effective(key) == variable_puts(PREFIX@, SEPARATOR@, variables[i], key),
{
    lemma_last_variable_counts(PREFIX@, SEPARATOR@, variables, key, i);
    lemma_environment_overrides_files(source, key);
}

/// Where the environment overrides the port, resolved settings have the
/// port that the environment names, whatever the files hold.
pub proof fn lemma_resolved_port_is_the_environments(
    source: ConfigSourceView,
    parsed: Option<IpAddress>,
    text: Seq<char>,
)
    requires
        lookup(source.overrides, Field::Port.key()) == Some(ValueView::Scalar(text)),
        resolution(source, parsed) is Ok,
    ensures
        port_of(text) == Some(resolution(source, parsed)->Ok_0.port),
{
    lemma_environment_overrides_files(source, Field::Port.key());
}

/// Where the environment overrides the address, the literal that is read
/// for the address is the environment's, whatever the files hold.
pub proof fn lemma_resolved_address_is_the_environments(source: ConfigSourceView, text: Seq<char>)
    requires
        lookup(source.overrides, Field::Addr.key()) == Some(ValueView::Scalar(text)),
        source.file_error() is None,
    ensures
        address_literal(source) == Some(text),
{
    lemma_environment_overrides_files(source, Field::Addr.key());
}

/// A key under which no variable puts anything has the value that the
/// files give it.
pub proof fn lemma_untouched_key_comes_from_files(
    source: ConfigSourceView,
    variables: Seq<VariableView>,
    key: Seq<char>,
)
    requires
        source.overrides == environment_entries(PREFIX@, SEPARATOR@, variables),
        none_under(PREFIX@, SEPARATOR@, variables, key),
    ensures
        source.effective(key) == lookup(source.base.entries() + source.profile_entries(), key),
{
    lemma_no_variable_no_entry(PREFIX@, SEPARATOR@, variables, key);
    lemma_lookup_layered(source.base.entries() + source.profile_entries(), source.overrides, key);
}

/// A key that the environment leaves alone and the profile's file holds has
/// the profile's value, whatever the base file holds under it.
pub proof fn lemma_profile_overrides_base(source: ConfigSourceView, key: Seq<char>)
    requires
        lookup(source.overrides, key) is None,
        decides(lookup(source.profile_entries(), key)),
    ensures
        source.effective(key) == lookup(source.profile_entries(), key),
{
    lemma_lookup_layered(source.base.entries() + source.profile_entries(), source.overrides, key);
    lemma_lookup_layered(source.base.entries(), source.profile_entries(), key);
}

/// Where no profile is selected, only the base file has to be there:
/// resolution reads the base file and the environment, and no failure of
/// it is a profile's.
pub proof fn lemma_unselected_profile_is_skipped(
    source: ConfigSourceView,
    parsed: Option<IpAddress>,
)
    requires
        source.profile is Unselected,
    ensures
        source.file_error() is None <==> source.base is Loaded,
        source.merged() == source.base.entries() + source.overrides,
        !(resolution(source, parsed) matches Err(ResolutionErrorView::ProfileFileMissing { .. })),
        !(resolution(source, parsed) matches Err(ResolutionErrorView::ProfileFileMalformed { .. })),
        !(resolution(source, parsed) matches Err(ResolutionErrorView::SelectorNotText)),
{
    assert(source.base.entries() + Seq::<EntryView>::empty() =~= source.base.entries());
}

/// Where a profile is selected and its file is not there, resolution
/// fails: with the profile's file named, unless the base file failed first.
pub proof fn lemma_selected_profile_is_required(
    source: ConfigSourceView,
    parsed: Option<IpAddress>,
)
    requires
        source.profile matches SelectionView::Selected(profile) && profile.layer is Missing,
    ensures
        resolution(source, parsed) is Err,
        source.base is Loaded ==> resolution(source, parsed) == Err::<
            Settings,
            ResolutionErrorView,
        >(ResolutionErrorView::ProfileFileMissing { file: source.profile->Selected_0.file() }),
{
}

/// Where the selector is set to what is no text, resolution fails as well:
/// the profile that is asked for has no file.
pub proof fn lemma_unnamed_profile_is_required(source: ConfigSourceView, parsed: Option<IpAddress>)
    requires
        source.profile is Unnamed,
    ensures
        resolution(source, parsed) is Err,
        source.base is Loaded ==> resolution(source, parsed) == Err::<
            Settings,
            ResolutionErrorView,
        >(ResolutionErrorView::SelectorNotText),
{
}

/// Whatever the selector is set to, the settings are not resolved unless
/// the file of its profile was read.
pub proof fn lemma_set_selector_needs_its_file(
    selector: SelectorView,
    layer: Option<FileLayerView>,
    source: ConfigSourceView,
    parsed: Option<IpAddress>,
)
    requires
        !(selector is Unset),
        source.profile == selection_of(selector, layer),
        !(layer matches Some(FileLayerView::Loaded(_))),
    ensures
        resolution(source, parsed) is Err,
{
}

/// A port that is no number in range makes resolution fail, from whatever
/// layer it comes: with the port named and its text given, unless a file
/// or the address failed first.
pub proof fn lemma_invalid_port_fails(
    source: ConfigSourceView,
    parsed: Option<IpAddress>,
    text: Seq<char>,
)
    requires
        source.effective(Field::Port.key()) == Some(ValueView::Scalar(text)),
        port_of(text) is None,
    ensures
        resolution(source, parsed) is Err,
        source.file_error() is None && !(read_addr(source.effective(Field::Addr.key()), parsed)
            is Invalid) ==> resolution(source, parsed) == Err::<Settings, ResolutionErrorView>(
            ResolutionErrorView::InvalidField { field: Field::Port, value: Some(text) },
        ),
{
}

/// Two resolutions from the same files and the same variables read the
/// same address literal and have the same outcome.
pub proof fn lemma_resolution_repeats(
    first: ConfigSource,
    second: ConfigSource,
    variables: Seq<VariableView>,
    parsed: Option<IpAddress>,
    first_outcome: Result<Settings, ResolutionError>,
    second_outcome: Result<Settings, ResolutionError>,
)
    requires
        first.base@ == second.base@,
        first.profile@ == second.profile@,
        entry_views(first.overrides@) == environment_entries(PREFIX@, SEPARATOR@, variables),
        entry_views(second.overrides@) == environment_entries(PREFIX@, SEPARATOR@, variables),
        outcome_view(first_outcome) == resolution(first@, parsed),
        outcome_view(second_outcome) == resolution(second@, parsed),
    ensures
        address_literal(first@) == address_literal(second@),
        outcome_view(first_outcome) == outcome_view(second_outcome),
        first_outcome is Ok ==> second_outcome is Ok && first_outcome->Ok_0 == second_outcome->Ok_0,
{
}

} // verus!
