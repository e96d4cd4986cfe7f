//! The metadata of a document, as its front matter gives it.
use crate::error::MetadataError;
use crate::error::MetadataProblem;
use crate::strings::same_text;
use crate::yaml::error_message;
use crate::yaml::parse_document;
use crate::yaml::yaml_document;
use crate::yaml::YamlNode;
use vstd::prelude::*;
use vstd::string::StringExecFns;

verus! {

/// The theme that a document asks for.
#[derive(Debug, PartialEq, Eq)]
pub struct PresentationThemeMetadata {
    /// The name of a built-in theme.
    pub name: Option<String>,
    /// The path of a theme file.
    pub path: Option<String>,
    /// Settings that replace the theme's own, as the document states them.
    pub overrides: Option<YamlNode>,
}

/// The metadata of a document.
#[derive(Debug, PartialEq, Eq)]
pub struct PresentationMetadata {
    pub title: Option<String>,
    pub sub_title: Option<String>,
    pub author: Option<String>,
    pub theme: PresentationThemeMetadata,
}

/// The theme that a document asks for, as contracts see it.
pub struct ThemeMetadataView {
    pub name: Option<Seq<char>>,
    pub path: Option<Seq<char>>,
    pub overrides: Option<YamlNode>,
}

/// The metadata of a document as contracts see it.
pub struct MetadataView {
    pub title: Option<Seq<char>>,
    pub sub_title: Option<Seq<char>>,
    pub author: Option<Seq<char>>,
    pub theme: ThemeMetadataView,
}

impl DeepView for PresentationThemeMetadata {
    type V = ThemeMetadataView;

    open spec fn deep_view(&self) -> ThemeMetadataView {
        ThemeMetadataView {
            name: self.name.deep_view(),
            path: self.path.deep_view(),
            overrides: self.overrides,
        }
    }
}

impl DeepView for PresentationMetadata {
    type V = MetadataView;

    open spec fn deep_view(&self) -> MetadataView {
        MetadataView {
            title: self.title.deep_view(),
            sub_title: self.sub_title.deep_view(),
            author: self.author.deep_view(),
            theme: self.theme.deep_view(),
        }
    }
}

impl ThemeMetadataView {
    /// No theme asked for.
    pub open spec fn none() -> ThemeMetadataView {
        ThemeMetadataView { name: None, path: None, overrides: None }
    }
}

impl MetadataView {
    /// The metadata of a document that states none.
    pub open spec fn none() -> MetadataView {
        MetadataView { title: None, sub_title: None, author: None, theme: ThemeMetadataView::none() }
    }

    /// Whether the document has a title, a subtitle or an author: what an
    /// introduction slide is made of.
    pub open spec fn has_intro(self) -> bool {
        self.title is Some || self.sub_title is Some || self.author is Some
    }
}

/// Whether `node` is the word `key`.
pub open spec fn key_is(node: YamlNode, key: Seq<char>) -> bool {
    match node {
        YamlNode::Text(word) => word@ == key,
        _ => false,
    }
}

/// The index of the first entry from `from` on whose key is the word `key`.
pub open spec fn entry_index(entries: Seq<(YamlNode, YamlNode)>, key: Seq<char>, from: int) -> Option<
    int,
>
    decreases entries.len() - from,
{
    if from < 0 || from >= entries.len() {
        None
    } else if key_is(entries[from].0, key) {
        Some(from)
    } else {
        entry_index(entries, key, from + 1)
    }
}

/// The value of the first entry whose key is the word `key`.
pub open spec fn entry_of(entries: Seq<(YamlNode, YamlNode)>, key: Seq<char>) -> Option<YamlNode> {
    match entry_index(entries, key, 0) {
        Some(index) => Some(entries[index].1),
        None => None,
    }
}

/// The text that a scalar stands for: a string is its own text, a number and a
/// boolean are written out.
pub open spec fn text_of_scalar(node: YamlNode) -> Option<Seq<char>> {
    match node {
        YamlNode::Text(text) => Some(text@),
        YamlNode::Number(number) => Some(number.text@),
        YamlNode::Bool(value) => Some(
            if value {
                "true"@
            } else {
                "false"@
            },
        ),
        _ => None,
    }
}

/// The text of a field that may be missing or null.
pub open spec fn optional_text(found: Option<YamlNode>) -> Result<
    Option<Seq<char>>,
    MetadataProblem,
> {
    match found {
        None => Ok(None),
        Some(YamlNode::Null) => Ok(None),
        Some(node) => match text_of_scalar(node) {
            Some(text) => Ok(Some(text)),
            None => Err(MetadataProblem::InvalidField),
        },
    }
}

/// A field that may be missing or null.
pub open spec fn present(found: Option<YamlNode>) -> Option<YamlNode> {
    match found {
        Some(YamlNode::Null) => None,
        other => other,
    }
}

/// The theme that the field `theme` asks for.
pub open spec fn theme_metadata_of(found: Option<YamlNode>) -> Result<
    ThemeMetadataView,
    MetadataProblem,
> {
    match found {
        None => Ok(ThemeMetadataView::none()),
        Some(YamlNode::Null) => Ok(ThemeMetadataView::none()),
        Some(YamlNode::Mapping(entries)) => match optional_text(entry_of(entries@, "name"@)) {
            Err(problem) => Err(problem),
            Ok(name) => match optional_text(entry_of(entries@, "path"@)) {
                Err(problem) => Err(problem),
                Ok(path) => Ok(
                    ThemeMetadataView {
                        name,
                        path,
                        overrides: present(entry_of(entries@, "overrides"@)),
                    },
                ),
            },
        },
        Some(_) => Err(MetadataProblem::InvalidField),
    }
}

/// The metadata that a YAML document gives: the document is a mapping, of
/// which the fields `title`, `sub_title`, `author` and `theme` are read.
pub open spec fn metadata_of_node(node: YamlNode) -> Result<MetadataView, MetadataProblem> {
    match node {
        YamlNode::Mapping(entries) => match optional_text(entry_of(entries@, "title"@)) {
            Err(problem) => Err(problem),
            Ok(title) => match optional_text(entry_of(entries@, "sub_title"@)) {
                Err(problem) => Err(problem),
                Ok(sub_title) => match optional_text(entry_of(entries@, "author"@)) {
                    Err(problem) => Err(problem),
                    Ok(author) => match theme_metadata_of(entry_of(entries@, "theme"@)) {
                        Err(problem) => Err(problem),
                        Ok(theme) => Ok(MetadataView { title, sub_title, author, theme }),
                    },
                },
            },
        },
        _ => Err(MetadataProblem::NotAMapping),
    }
}

/// The metadata that a front matter gives.
pub open spec fn metadata_of(text: Seq<char>) -> Result<MetadataView, MetadataProblem> {
    match yaml_document(text) {
        Some(node) => metadata_of_node(node),
        None => Err(MetadataProblem::Syntax),
    }
}

/// What a parse gave, as contracts see it.
pub open spec fn parsed_view(parsed: Result<PresentationMetadata, MetadataError>) -> Result<
    MetadataView,
    MetadataProblem,
> {
    match parsed {
        Ok(metadata) => Ok(metadata.deep_view()),
        Err(error) => Err(error.problem),
    }
}

fn failure(kind: MetadataProblem, message: &str) -> (error: MetadataError)
    ensures
        error.problem == kind,
{
    MetadataError { problem: kind, message: String::from_str(message) }
}

/// The index of the first entry whose key is the word `key`.
fn find(entries: &Vec<(YamlNode, YamlNode)>, key: &str) -> (found: Option<usize>)
    ensures
        match found {
            Some(index) => index < entries@.len() && entry_of(entries@, key@) == Some(
                entries@[index as int].1,
            ),
            None => entry_of(entries@, key@) is None,
        },
{
    let mut at: usize = 0;
    while at < entries.len()
        invariant
            at <= entries@.len(),
            entry_index(entries@, key@, 0) == entry_index(entries@, key@, at as int),
        decreases entries@.len() - at,
    {
        let is_key = match &entries[at].0 {
            YamlNode::Text(word) => same_text(word.as_str(), key),
            _ => false,
        };
        if is_key {
            return Some(at);
        }
        at = at + 1;
    }
    None
}

/// The text of a field that may be missing or null.
fn text_field(entries: &Vec<(YamlNode, YamlNode)>, key: &str) -> (text: Result<
    Option<String>,
    MetadataError,
>)
    ensures
        match text {
            Ok(text) => optional_text(entry_of(entries@, key@)) == Ok::<
                Option<Seq<char>>,
                MetadataProblem,
            >(text.deep_view()),
            Err(error) => optional_text(entry_of(entries@, key@)) == Err::<
                Option<Seq<char>>,
                MetadataProblem,
            >(error.problem),
        },
{
    match find(entries, key) {
        None => Ok(None),
        Some(index) => match &entries[index].1 {
            YamlNode::Null => Ok(None),
            YamlNode::Text(text) => Ok(Some(text.clone())),
            YamlNode::Number(number) => Ok(Some(number.text.clone())),
            YamlNode::Bool(value) => Ok(
                Some(
                    if *value {
                        String::from_str("true")
                    } else {
                        String::from_str("false")
                    },
                ),
            ),
            _ => Err(failure(MetadataProblem::InvalidField, "a field must hold a text")),
        },
    }
}

/// Takes the value of the first entry whose key is the word `key` out of
/// `entries`.
fn take_field(entries: &mut Vec<(YamlNode, YamlNode)>, key: &str) -> (found: Option<YamlNode>)
    ensures
        found == entry_of(old(entries)@, key@),
{
    match find(entries, key) {
        None => None,
        Some(index) => {
            let entry = entries.remove(index);
            Some(entry.1)
        },
    }
}

impl PresentationThemeMetadata {
    /// The theme that the field `theme` asks for.
    fn from_field(found: Option<YamlNode>) -> (parsed: Result<
        PresentationThemeMetadata,
        MetadataError,
    >)
        ensures
            match parsed {
                Ok(theme) => theme_metadata_of(found) == Ok::<ThemeMetadataView, MetadataProblem>(
                    theme.deep_view(),
                ),
                Err(error) => theme_metadata_of(found) == Err::<ThemeMetadataView, MetadataProblem>(
                    error.problem,
                ),
            },
    {
        match found {
            None => Ok(PresentationThemeMetadata { name: None, path: None, overrides: None }),
            Some(YamlNode::Null) => Ok(
                PresentationThemeMetadata { name: None, path: None, overrides: None },
            ),
            Some(YamlNode::Mapping(entries)) => {
                let mut entries = entries;
                let name = match text_field(&entries, "name") {
                    Ok(name) => name,
                    Err(error) => {
                        return Err(error);
                    },
                };
                let path = match text_field(&entries, "path") {
                    Ok(path) => path,
                    Err(error) => {
                        return Err(error);
                    },
                };
                let overrides = match take_field(&mut entries, "overrides") {
                    Some(YamlNode::Null) => None,
                    other => other,
                };
                Ok(PresentationThemeMetadata { name, path, overrides })
            },
            Some(_) => Err(failure(MetadataProblem::InvalidField, "the theme must be a mapping")),
        }
    }
}

impl PresentationMetadata {
    /// The metadata of a document that states none.
    pub fn none() -> (metadata: PresentationMetadata)
        ensures
            metadata.deep_view() == MetadataView::none(),
    {
        PresentationMetadata {
            title: None,
            sub_title: None,
            author: None,
            theme: PresentationThemeMetadata { name: None, path: None, overrides: None },
        }
    }

    /// The metadata that a YAML document gives.
    pub fn from_node(node: YamlNode) -> (parsed: Result<PresentationMetadata, MetadataError>)
        ensures
            parsed_view(parsed) == metadata_of_node(node),
    {
        match node {
            YamlNode::Mapping(entries) => {
                let mut entries = entries;
                let title = match text_field(&entries, "title") {
                    Ok(title) => title,
                    Err(error) => {
                        return Err(error);
                    },
                };
                let sub_title = match text_field(&entries, "sub_title") {
                    Ok(sub_title) => sub_title,
                    Err(error) => {
                        return Err(error);
                    },
                };
                let author = match text_field(&entries, "author") {
                    Ok(author) => author,
                    Err(error) => {
                        return Err(error);
                    },
                };
                let theme = match PresentationThemeMetadata::from_field(
                    take_field(&mut entries, "theme"),
                ) {
                    Ok(theme) => theme,
                    Err(error) => {
                        return Err(error);
                    },
                };
                Ok(PresentationMetadata { title, sub_title, author, theme })
            },
            _ => Err(failure(MetadataProblem::NotAMapping, "the front matter must be a mapping")),
        }
    }

    /// The metadata that a front matter gives: the text is read as YAML, and
    /// the document has to be a mapping.
    pub fn parse(text: &str) -> (parsed: Result<PresentationMetadata, MetadataError>)
        ensures
            parsed_view(parsed) == metadata_of(text@),
    {
        match parse_document(text) {
            Ok(node) => Self::from_node(node),
            Err(error) => Err(
                MetadataError { problem: MetadataProblem::Syntax, message: error_message(&error) },
            ),
        }
    }
}

} // verus!
