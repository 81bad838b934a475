//! The three layers from which the settings are resolved.

use vstd::prelude::*;
use crate::environment::{environment_entries, environment_layer, variable_views, Variable};
use crate::error::{ResolutionError, ResolutionErrorView};
use crate::layer::{
    entry_views,
    find,
    lemma_lookup_layered,
    lookup,
    put_over,
    value_view,
    Entry,
    EntryView,
    Value,
    ValueView,
};
use crate::settings::{profile_file, PREFIX, PROFILE_DIRECTORY, SEPARATOR};
use crate::text::text_of;

verus! {

/// What became of reading a configuration file.
#[derive(Debug, PartialEq, Eq)]
pub enum FileLayer {
    /// The file was read; these are the entries of its outermost table.
    Loaded(Vec<Entry>),
    /// The file is not there.
    Missing,
    /// The file is there and is no document; the text says why.
    Malformed(String),
}

/// A `FileLayer` as mathematical text.
pub enum FileLayerView {
    Loaded(Seq<EntryView>),
    Missing,
    Malformed(Seq<char>),
}

impl View for FileLayer {
    type V = FileLayerView;

    open spec fn view(&self) -> FileLayerView {
        match self {
            FileLayer::Loaded(entries) => FileLayerView::Loaded(entry_views(entries@)),
            FileLayer::Missing => FileLayerView::Missing,
            FileLayer::Malformed(reason) => FileLayerView::Malformed(reason@),
        }
    }
}

impl FileLayerView {
    /// The entries that the layer brings to the merge.
    pub open spec fn entries(self) -> Seq<EntryView> {
        match self {
            FileLayerView::Loaded(entries) => entries,
            _ => Seq::empty(),
        }
    }
}

/// A selected profile: the value of the selector and what became of
/// reading the file that it names.
#[derive(Debug, PartialEq, Eq)]
pub struct Profile {
    pub selector: String,
    pub layer: FileLayer,
}

/// A `Profile` as mathematical text.
pub struct ProfileView {
    pub selector: Seq<char>,
    pub layer: FileLayerView,
}

impl View for Profile {
    type V = ProfileView;

    open spec fn view(&self) -> ProfileView {
        ProfileView { selector: self.selector@, layer: self.layer@ }
    }
}

impl ProfileView {
    /// The name of the profile's file.
    pub open spec fn file(self) -> Seq<char> {
        PROFILE_DIRECTORY@ + self.selector
    }
}

/// What the process environment holds under the selector variable.
#[derive(Debug, PartialEq, Eq)]
pub enum Selector {
    /// The variable is not set.
    Unset,
    /// The variable is set to this text.
    Text(String),
    /// The variable is set to what is no text.
    NotText,
}

/// A `Selector` as mathematical text.
pub enum SelectorView {
    Unset,
    Text(Seq<char>),
    NotText,
}

impl View for Selector {
    type V = SelectorView;

    open spec fn view(&self) -> SelectorView {
        match self {
            Selector::Unset => SelectorView::Unset,
            Selector::Text(text) => SelectorView::Text(text@),
            Selector::NotText => SelectorView::NotText,
        }
    }
}

impl SelectorView {
    /// The name of the file that the selector asks to be read: that of the
    /// profile where the selector is text, none otherwise.
    pub open spec fn file(self) -> Option<Seq<char>> {
        match self {
            SelectorView::Text(text) => Some(PROFILE_DIRECTORY@ + text),
            _ => None,
        }
    }
}

impl Selector {
    /// The name of the file that the selector asks to be read.
    pub fn file(&self) -> (file: Option<String>)
        ensures
            text_of(file) == self@.file(),
    {
        match self {
            Selector::Text(text) => Some(profile_file(text.as_str())),
            _ => None,
        }
    }
}

/// The profile layer of one resolution.
#[derive(Debug, PartialEq, Eq)]
pub enum Selection {
    /// The selector is not set: no profile is asked for.
    Unselected,
    /// The selector is text: this profile is asked for.
    Selected(Profile),
    /// The selector is set to what is no text: a profile is asked for and
    /// no file can be its.
    Unnamed,
}

/// A `Selection` as mathematical text.
pub enum SelectionView {
    Unselected,
    Selected(ProfileView),
    Unnamed,
}

impl View for Selection {
    type V = SelectionView;

    open spec fn view(&self) -> SelectionView {
        match self {
            Selection::Unselected => SelectionView::Unselected,
            Selection::Selected(profile) => SelectionView::Selected(profile@),
            Selection::Unnamed => SelectionView::Unnamed,
        }
    }
}

/// The view of a file layer that may be absent.
pub open spec fn layer_view(layer: Option<FileLayer>) -> Option<FileLayerView> {
    match layer {
        Some(l) => Some(l@),
        None => None,
    }
}

/// The profile layer that `selector` asks for, where `layer` is what became
/// of reading the selector's file. A file that was not read counts as not
/// there.
pub open spec fn selection_of(selector: SelectorView, layer: Option<FileLayerView>) -> SelectionView {
    match selector {
        SelectorView::Unset => SelectionView::Unselected,
        SelectorView::NotText => SelectionView::Unnamed,
        SelectorView::Text(text) => SelectionView::Selected(
            ProfileView {
                selector: text,
                layer: match layer {
                    Some(l) => l,
                    None => FileLayerView::Missing,
                },
            },
        ),
    }
}

impl Selection {
    /// The profile layer that `selector` asks for, where `layer` is what
    /// became of reading the file that `selector.file()` names.
    pub fn new(selector: Selector, layer: Option<FileLayer>) -> (selection: Selection)
        ensures
            selection@ == selection_of(selector@, layer_view(layer)),
    {
        match selector {
            Selector::Unset => Selection::Unselected,
            Selector::NotText => Selection::Unnamed,
            Selector::Text(text) => Selection::Selected(
                Profile {
                    selector: text,
                    layer: match layer {
                        Some(l) => l,
                        None => FileLayer::Missing,
                    },
                },
            ),
        }
    }
}

/// The layers of one resolution, lowest first: the base file, the file of
/// the selected profile where one is selected, and the overrides that the
/// environment gives.
#[derive(Debug, PartialEq, Eq)]
pub struct ConfigSource {
    pub base: FileLayer,
    pub profile: Selection,
    pub overrides: Vec<Entry>,
}

/// A `ConfigSource` as mathematical text.
pub struct ConfigSourceView {
    pub base: FileLayerView,
    pub profile: SelectionView,
    pub overrides: Seq<EntryView>,
}

impl View for ConfigSource {
    type V = ConfigSourceView;

    open spec fn view(&self) -> ConfigSourceView {
        ConfigSourceView {
            base: self.base@,
            profile: self.profile@,
            overrides: entry_views(self.overrides@),
        }
    }
}

impl ConfigSourceView {
    /// The failure of a file that has to be there, the base file before
    /// the profile's; `None` where every such file was read. A profile
    /// that is asked for has to be there, whatever the selector holds.
    pub open spec fn file_error(self) -> Option<ResolutionErrorView> {
        match self.base {
            FileLayerView::Missing => Some(ResolutionErrorView::BaseFileMissing),
            FileLayerView::Malformed(reason) => Some(
                ResolutionErrorView::BaseFileMalformed { reason },
            ),
            FileLayerView::Loaded(_) => match self.profile {
                SelectionView::Selected(profile) => match profile.layer {
                    FileLayerView::Missing => Some(
                        ResolutionErrorView::ProfileFileMissing { file: profile.file() },
                    ),
                    FileLayerView::Malformed(reason) => Some(
                        ResolutionErrorView::ProfileFileMalformed { file: profile.file(), reason },
                    ),
                    FileLayerView::Loaded(_) => None,
                },
                SelectionView::Unnamed => Some(ResolutionErrorView::SelectorNotText),
                SelectionView::Unselected => None,
            },
        }
    }

    /// The entries of the profile's file; none where no profile is selected.
    pub open spec fn profile_entries(self) -> Seq<EntryView> {
        match self.profile {
            SelectionView::Selected(p) => p.layer.entries(),
            _ => Seq::empty(),
        }
    }

    /// All entries, lowest layer first.
    pub open spec fn merged(self) -> Seq<EntryView> {
        self.base.entries() + self.profile_entries() + self.overrides
    }

    /// What the layers together put under `key`, a name at the top of the
    /// tree, each layer put over those below it.
    pub open spec fn effective(self, key: Seq<char>) -> Option<ValueView> {
        lookup(self.merged(), key)
    }
}

impl ConfigSource {
    /// The layers of one resolution: what became of reading the base file,
    /// the selected profile if one is selected, and the overrides that
    /// `variables` make under the prefix `PREFIX` and the separator
    /// `SEPARATOR`.
    pub fn new(base: FileLayer, profile: Selection, variables: &Vec<Variable>) -> (source:
        ConfigSource)
        ensures
            source.base == base,
            source.profile == profile,
            entry_views(source.overrides@) == environment_entries(
                PREFIX@,
                SEPARATOR@,
                variable_views(variables@),
            ),
    {
        ConfigSource { base, profile, overrides: environment_layer(PREFIX, SEPARATOR, variables) }
    }

    /// The failure of a file that has to be there, if there is one.
    pub fn check_files(&self) -> (result: Result<(), ResolutionError>)
        ensures
            result is Ok ==> self@.file_error() is None,
            result matches Err(e) ==> self@.file_error() == Some(e@),
    {
        match &self.base {
            FileLayer::Missing => {
                return Err(ResolutionError::BaseFileMissing);
            },
            FileLayer::Malformed(reason) => {
                return Err(ResolutionError::BaseFileMalformed { reason: reason.clone() });
            },
            FileLayer::Loaded(_) => {},
        }
        match &self.profile {
            Selection::Selected(Profile { selector, layer: FileLayer::Missing }) => Err(
                ResolutionError::ProfileFileMissing { file: profile_file(selector.as_str()) },
            ),
            Selection::Selected(Profile { selector, layer: FileLayer::Malformed(reason) }) => Err(
                ResolutionError::ProfileFileMalformed {
                    file: profile_file(selector.as_str()),
                    reason: reason.clone(),
                },
            ),
            Selection::Unnamed => Err(ResolutionError::SelectorNotText),
            _ => Ok(()),
        }
    }

    /// What the layers together put under `key`, a name at the top of the
    /// tree.
    pub fn effective(&self, key: &str) -> (value: Option<Value>)
        ensures
            value_view(value) == self@.effective(key@),
    {
        proof {
            lemma_lookup_layered(
                self@.base.entries() + self@.profile_entries(),
                self@.overrides,
                key@,
            );
            lemma_lookup_layered(self@.base.entries(), self@.profile_entries(), key@);
        }
        let from_base = match &self.base {
            FileLayer::Loaded(entries) => find(entries, key),
            _ => None,
        };
        let from_profile = match &self.profile {
            Selection::Selected(Profile { layer: FileLayer::Loaded(entries), .. }) => find(
                entries,
                key,
            ),
            _ => None,
        };
        let from_files = put_over(from_base, from_profile);
        put_over(from_files, find(&self.overrides, key))
    }
}

} // verus!
