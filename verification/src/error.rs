//! The errors that end a build.
use crate::command::CommandParseError;
use crate::command::CommandProblem;
use vstd::prelude::*;
use vstd::string::StringExecFns;

verus! {

/// An image could not be loaded.
#[derive(Clone, Debug, PartialEq, Eq)]
pub struct LoadImageError {
    pub message: String,
}

/// A theme could not be loaded.
#[derive(Clone, Debug, PartialEq, Eq)]
pub struct LoadThemeError {
    pub message: String,
}

/// What is wrong with a document's metadata.
#[derive(Clone, Copy, Debug, PartialEq, Eq)]
pub enum MetadataProblem {
    /// The front matter is not a YAML document.
    Syntax,
    /// The front matter is not a mapping.
    NotAMapping,
    /// A field holds something that is no text, or the theme is no mapping.
    InvalidField,
    /// The theme is given both by name and by path.
    ThemeNameAndPath,
    /// No theme has the given name.
    UnknownTheme,
    /// The theme's overrides cannot be merged into the theme.
    InvalidOverrides,
}

/// The metadata of a document cannot be used.
#[derive(Clone, Debug, PartialEq, Eq)]
pub struct MetadataError {
    pub problem: MetadataProblem,
    /// The problem in words.
    pub message: String,
}

/// An error when building a presentation.
#[derive(Clone, Debug, PartialEq, Eq)]
pub enum BuildError {
    LoadImage(LoadImageError),
    InvalidMetadata(MetadataError),
    InvalidTheme(LoadThemeError),
    InvalidCodeTheme,
    InvalidLayout(&'static str),
    NoLayout,
    AlreadyInColumn,
    ColumnIndexTooLarge,
    NotInsideColumn,
    CommandParse(CommandParseError),
}

/// A build error as contracts see it. Of a message that an outside parser
/// wrote, only the kind of problem is kept.
pub enum BuildErrorView {
    LoadImage(Seq<char>),
    InvalidMetadata(MetadataProblem),
    InvalidTheme(Seq<char>),
    InvalidCodeTheme,
    InvalidLayout(Seq<char>),
    NoLayout,
    AlreadyInColumn,
    ColumnIndexTooLarge,
    NotInsideColumn,
    CommandParse(CommandProblem),
}

impl DeepView for BuildError {
    type V = BuildErrorView;

    open spec fn deep_view(&self) -> BuildErrorView {
        match self {
            BuildError::LoadImage(error) => BuildErrorView::LoadImage(error.message@),
            BuildError::InvalidMetadata(error) => BuildErrorView::InvalidMetadata(error.problem),
            BuildError::InvalidTheme(error) => BuildErrorView::InvalidTheme(error.message@),
            BuildError::InvalidCodeTheme => BuildErrorView::InvalidCodeTheme,
            BuildError::InvalidLayout(reason) => BuildErrorView::InvalidLayout(reason@),
            BuildError::NoLayout => BuildErrorView::NoLayout,
            BuildError::AlreadyInColumn => BuildErrorView::AlreadyInColumn,
            BuildError::ColumnIndexTooLarge => BuildErrorView::ColumnIndexTooLarge,
            BuildError::NotInsideColumn => BuildErrorView::NotInsideColumn,
            BuildError::CommandParse(error) => BuildErrorView::CommandParse(error.problem),
        }
    }
}

impl BuildError {
    /// The error in words.
    pub open spec fn message_of(self) -> Seq<char> {
        match self {
            BuildError::LoadImage(error) => "loading image: "@ + error.message@,
            BuildError::InvalidMetadata(error) => "invalid presentation metadata: "@
                + error.message@,
            BuildError::InvalidTheme(error) => "invalid theme: "@ + error.message@,
            BuildError::InvalidCodeTheme => "invalid code highlighter theme"@,
            BuildError::InvalidLayout(reason) => "invalid layout: "@ + reason@,
            BuildError::NoLayout => "can't enter layout: no layout defined"@,
            BuildError::AlreadyInColumn => "can't enter layout column: already in it"@,
            BuildError::ColumnIndexTooLarge => "can't enter layout column: column index too large"@,
            BuildError::NotInsideColumn => "need to enter layout column explicitly using `column` command"@,
            BuildError::CommandParse(error) => "invalid command: "@ + error.detail@,
        }
    }

    /// The error in words.
    pub fn message(&self) -> (text: String)
        ensures
            text@ == self.message_of(),
    {
        match self {
            BuildError::LoadImage(error) => crate::strings::joined(
                "loading image: ",
                error.message.as_str(),
            ),
            BuildError::InvalidMetadata(error) => crate::strings::joined(
                "invalid presentation metadata: ",
                error.message.as_str(),
            ),
            BuildError::InvalidTheme(error) => crate::strings::joined(
                "invalid theme: ",
                error.message.as_str(),
            ),
            BuildError::InvalidCodeTheme => String::from_str("invalid code highlighter theme"),
            BuildError::InvalidLayout(reason) => crate::strings::joined("invalid layout: ", reason),
            BuildError::NoLayout => String::from_str("can't enter layout: no layout defined"),
            BuildError::AlreadyInColumn => String::from_str(
                "can't enter layout column: already in it",
            ),
            BuildError::ColumnIndexTooLarge => String::from_str(
                "can't enter layout column: column index too large",
            ),
            BuildError::NotInsideColumn => String::from_str(
                "need to enter layout column explicitly using `column` command",
            ),
            BuildError::CommandParse(error) => error.message(),
        }
    }
}

} // verus!
