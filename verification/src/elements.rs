//! The structural elements of a document, in the order in which the document
//! holds them.
use crate::text::StyledTextView;
use crate::text::Text;
use vstd::prelude::*;

verus! {

/// The language of a block of code.
#[derive(Clone, Copy, Debug, PartialEq, Eq)]
pub enum ProgrammingLanguage {
    Asp,
    Bash,
    BatchFile,
    C,
    CSharp,
    Clojure,
    Cpp,
    Css,
    DLang,
    Erlang,
    Go,
    Haskell,
    Html,
    Java,
    JavaScript,
    Json,
    Latex,
    Lua,
    Makefile,
    Markdown,
    OCaml,
    Perl,
    Php,
    Python,
    R,
    Rust,
    Scala,
    Shell,
    Sql,
    TypeScript,
    Xml,
    Yaml,
    Unknown,
}

/// A block of code.
#[derive(Clone, Debug, PartialEq, Eq)]
pub struct Code {
    pub contents: String,
    pub language: ProgrammingLanguage,
}

/// How a list item is marked.
#[derive(Clone, Copy, Debug, PartialEq, Eq)]
pub enum ListItemType {
    /// With a bullet.
    Unordered,
    /// With its number and a closing parenthesis.
    OrderedParens(usize),
    /// With its number and a period.
    OrderedPeriod(usize),
}

/// One item of a list.
#[derive(Clone, Debug, PartialEq, Eq)]
pub struct ListItem {
    /// How deep the item is nested; 0 at the top.
    pub depth: u8,
    pub contents: Text,
    pub item_type: ListItemType,
}

/// A part of a paragraph.
#[derive(Clone, Debug, PartialEq, Eq)]
pub enum ParagraphElement {
    Text(Text),
    LineBreak,
}

/// One row of a table.
#[derive(Clone, Debug, PartialEq, Eq)]
pub struct TableRow(pub Vec<Text>);

impl DeepView for TableRow {
    type V = Seq<Seq<StyledTextView>>;

    open spec fn deep_view(&self) -> Seq<Seq<StyledTextView>> {
        self.0.deep_view()
    }
}

/// A table: a header and rows with as many cells as the header.
#[derive(Clone, Debug, PartialEq, Eq)]
pub struct Table {
    pub header: TableRow,
    pub rows: Vec<TableRow>,
}

impl Table {
    /// Every row has as many cells as the header.
    pub open spec fn valid(self) -> bool {
        forall|i: int| 0 <= i < self.rows@.len() ==> (#[trigger] self.rows@[i]).0@.len() == self.header.0@.len()
    }

    /// The number of columns.
    pub fn columns(&self) -> (columns: usize)
        ensures
            columns == self.header.0@.len(),
    {
        self.header.0.len()
    }

    /// Whether every row has as many cells as the header.
    pub fn is_valid(&self) -> (valid: bool)
        ensures
            valid == self.valid(),
    {
        let mut at: usize = 0;
        while at < self.rows.len()
            invariant
                at <= self.rows@.len(),
                forall|i: int| 0 <= i < at ==> (#[trigger] self.rows@[i]).0@.len() == self.header.0@.len(),
            decreases self.rows@.len() - at,
        {
            if self.rows[at].0.len() != self.header.0.len() {
                return false;
            }
            at = at + 1;
        }
        true
    }
}

/// A structural element of a document.
#[derive(Clone, Debug, PartialEq, Eq)]
pub enum MarkdownElement {
    /// The document's metadata, as the text between the markers at its top.
    FrontMatter(String),
    /// A heading of level 1 to 6.
    Heading { level: u8, text: Text },
    /// An underlined heading: the title of a slide.
    SetexHeading { text: Text },
    Paragraph(Vec<ParagraphElement>),
    List(Vec<ListItem>),
    Code(Code),
    Table(Table),
    ThematicBreak,
    /// A comment, as the text between its markers.
    Comment(String),
    /// A block quote, line by line.
    BlockQuote(Vec<String>),
    /// An image, by its path.
    Image(String),
}

impl MarkdownElement {
    /// A heading's level is 1 to 6, and a table's rows are as long as its
    /// header.
    pub open spec fn valid(self) -> bool {
        match self {
            MarkdownElement::Heading { level, .. } => 1 <= level <= 6,
            MarkdownElement::Table(table) => table.valid(),
            _ => true,
        }
    }

    /// Whether the element is valid.
    pub fn is_valid(&self) -> (valid: bool)
        ensures
            valid == self.valid(),
    {
        match self {
            MarkdownElement::Heading { level, .. } => 1 <= *level && *level <= 6,
            MarkdownElement::Table(table) => table.is_valid(),
            _ => true,
        }
    }
}

/// Every element is valid.
pub open spec fn all_valid(elements: Seq<MarkdownElement>) -> bool {
    forall|i: int| 0 <= i < elements.len() ==> (#[trigger] elements[i]).valid()
}

/// Whether every element is valid.
pub fn are_valid(elements: &Vec<MarkdownElement>) -> (valid: bool)
    ensures
        valid == all_valid(elements@),
{
    let mut at: usize = 0;
    while at < elements.len()
        invariant
            at <= elements@.len(),
            forall|i: int| 0 <= i < at ==> (#[trigger] elements@[i]).valid(),
        decreases elements@.len() - at,
    {
        if !elements[at].is_valid() {
            return false;
        }
        at = at + 1;
    }
    true
}

} // verus!
