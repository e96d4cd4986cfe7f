//! The commands that a document gives in its one-line comments.
use crate::strings::same_text;
use crate::yaml::error_message;
use crate::yaml::parse_document;
use crate::yaml::yaml_document;
use crate::yaml::YamlNode;
use vstd::prelude::*;
use vstd::string::StringExecFns;

verus! {

/// A command given in a comment.
#[derive(Clone, Debug, PartialEq, Eq)]
pub enum CommentCommand {
    /// `pause`: show what follows on a slide of its own.
    Pause,
    /// `end_slide`: end the slide.
    EndSlide,
    /// `column_layout: [..]`: split the slide into columns of these widths.
    InitColumnLayout(Vec<u8>),
    /// `column: n`: go on in column `n`.
    Column(usize),
    /// `reset_layout`: leave the columns.
    ResetLayout,
}

/// A command as contracts see it.
pub enum CommentCommandView {
    Pause,
    EndSlide,
    InitColumnLayout(Seq<u8>),
    Column(usize),
    ResetLayout,
}

impl DeepView for CommentCommand {
    type V = CommentCommandView;

    open spec fn deep_view(&self) -> CommentCommandView {
        match self {
            CommentCommand::Pause => CommentCommandView::Pause,
            CommentCommand::EndSlide => CommentCommandView::EndSlide,
            CommentCommand::InitColumnLayout(columns) => CommentCommandView::InitColumnLayout(
                columns@,
            ),
            CommentCommand::Column(column) => CommentCommandView::Column(*column),
            CommentCommand::ResetLayout => CommentCommandView::ResetLayout,
        }
    }
}

/// Why a comment is no command.
#[derive(Clone, Copy, Debug, PartialEq, Eq)]
pub enum CommandProblem {
    /// The comment is not a YAML document.
    Syntax,
    /// The comment is neither a word nor a single `key: value` pair.
    Malformed,
    /// The word, or the key, is not the name of a command.
    UnknownCommand,
    /// The command has an argument it does not take, lacks the one it needs,
    /// or has one of the wrong kind.
    InvalidArgument,
}

/// The error of a comment that is no command.
#[derive(Clone, Debug, PartialEq, Eq)]
pub struct CommandParseError {
    pub problem: CommandProblem,
    /// What was found, in words.
    pub detail: String,
}

/// Whether `word` names a command without argument.
pub open spec fn is_plain_command(word: Seq<char>) -> bool {
    word == "pause"@ || word == "end_slide"@ || word == "reset_layout"@
}

/// Whether `word` names a command with an argument.
pub open spec fn is_command_key(word: Seq<char>) -> bool {
    word == "column_layout"@ || word == "column"@
}

/// The command that the single word `word` gives.
pub open spec fn command_of_word(word: Seq<char>) -> Result<CommentCommandView, CommandProblem> {
    if word == "pause"@ {
        Ok(CommentCommandView::Pause)
    } else if word == "end_slide"@ {
        Ok(CommentCommandView::EndSlide)
    } else if word == "reset_layout"@ {
        Ok(CommentCommandView::ResetLayout)
    } else if is_command_key(word) {
        Err(CommandProblem::InvalidArgument)
    } else {
        Err(CommandProblem::UnknownCommand)
    }
}

/// The unsigned integer that `node` is, if it is one.
pub open spec fn unsigned_of(node: YamlNode) -> Option<u64> {
    match node {
        YamlNode::Number(number) => number.unsigned,
        _ => None,
    }
}

/// The widths that `items` give: every item has to be an integer from 0 to
/// 255.
pub open spec fn widths_of(items: Seq<YamlNode>) -> Option<Seq<u8>> {
    if forall|i: int|
        0 <= i < items.len() ==> (#[trigger] unsigned_of(items[i])) is Some && unsigned_of(
            items[i],
        ).unwrap() <= 255 {
        Some(Seq::new(items.len(), |i: int| unsigned_of(items[i]).unwrap() as u8))
    } else {
        None
    }
}

/// The command that the pair `key: value` gives.
pub open spec fn command_of_entry(key: Seq<char>, value: YamlNode) -> Result<
    CommentCommandView,
    CommandProblem,
> {
    if key == "column_layout"@ {
        match value {
            YamlNode::Sequence(items) => match widths_of(items@) {
                Some(widths) => Ok(CommentCommandView::InitColumnLayout(widths)),
                None => Err(CommandProblem::InvalidArgument),
            },
            _ => Err(CommandProblem::InvalidArgument),
        }
    } else if key == "column"@ {
        match unsigned_of(value) {
            Some(column) => if column <= usize::MAX {
                Ok(CommentCommandView::Column(column as usize))
            } else {
                Err(CommandProblem::InvalidArgument)
            },
            None => Err(CommandProblem::InvalidArgument),
        }
    } else if is_plain_command(key) {
        Err(CommandProblem::InvalidArgument)
    } else {
        Err(CommandProblem::UnknownCommand)
    }
}

/// The command that a YAML document gives: a word gives a command without
/// argument, a mapping of one entry with a word as its key gives a command
/// with an argument, and nothing else gives a command.
pub open spec fn command_of_node(node: YamlNode) -> Result<CommentCommandView, CommandProblem> {
    match node {
        YamlNode::Text(word) => command_of_word(word@),
        YamlNode::Mapping(entries) => if entries@.len() == 1 {
            match entries@[0].0 {
                YamlNode::Text(key) => command_of_entry(key@, entries@[0].1),
                _ => Err(CommandProblem::Malformed),
            }
        } else {
            Err(CommandProblem::Malformed)
        },
        _ => Err(CommandProblem::Malformed),
    }
}

/// The command that the text of a comment gives.
pub open spec fn command_of(text: Seq<char>) -> Result<CommentCommandView, CommandProblem> {
    match yaml_document(text) {
        Some(node) => command_of_node(node),
        None => Err(CommandProblem::Syntax),
    }
}

/// What a parse gave, as contracts see it.
pub open spec fn parsed_view(parsed: Result<CommentCommand, CommandParseError>) -> Result<
    CommentCommandView,
    CommandProblem,
> {
    match parsed {
        Ok(command) => Ok(command.deep_view()),
        Err(error) => Err(error.problem),
    }
}

fn failure(kind: CommandProblem, detail: &str) -> (error: CommandParseError)
    ensures
        error.problem == kind,
{
    CommandParseError { problem: kind, detail: String::from_str(detail) }
}

impl CommandParseError {
    /// The error in words.
    pub fn message(&self) -> (text: String)
        ensures
            text@ == "invalid command: "@ + self.detail@,
    {
        let mut text = String::from_str("invalid command: ");
        text.append(self.detail.as_str());
        text
    }
}

impl CommentCommand {
    /// The command that the single word `word` gives.
    fn from_word(word: &str) -> (parsed: Result<CommentCommand, CommandParseError>)
        ensures
            parsed_view(parsed) == command_of_word(word@),
    {
        if same_text(word, "pause") {
            Ok(CommentCommand::Pause)
        } else if same_text(word, "end_slide") {
            Ok(CommentCommand::EndSlide)
        } else if same_text(word, "reset_layout") {
            Ok(CommentCommand::ResetLayout)
        } else if same_text(word, "column_layout") || same_text(word, "column") {
            Err(failure(CommandProblem::InvalidArgument, "the command needs an argument"))
        } else {
            Err(failure(CommandProblem::UnknownCommand, "unknown command"))
        }
    }

    /// The widths that `items` give.
    fn widths(items: &Vec<YamlNode>) -> (widths: Option<Vec<u8>>)
        ensures
            match widths {
                Some(widths) => widths_of(items@) == Some(widths@),
                None => widths_of(items@) is None,
            },
    {
        let mut widths: Vec<u8> = Vec::new();
        let mut at: usize = 0;
        while at < items.len()
            invariant
                at <= items@.len(),
                widths@.len() == at,
                forall|i: int|
                    0 <= i < at ==> (#[trigger] unsigned_of(items@[i])) is Some && unsigned_of(
                        items@[i],
                    ).unwrap() <= 255,
                forall|i: int| 0 <= i < at ==> widths@[i] == unsigned_of(items@[i]).unwrap() as u8,
            decreases items@.len() - at,
        {
            match &items[at] {
                YamlNode::Number(number) => match number.unsigned {
                    Some(value) => {
                        if value > 255 {
                            assert(unsigned_of(items@[at as int]).unwrap() > 255);
                            return None;
                        }
                        widths.push(value as u8);
                    },
                    None => {
                        assert(unsigned_of(items@[at as int]) is None);
                        return None;
                    },
                },
                _ => {
                    assert(unsigned_of(items@[at as int]) is None);
                    return None;
                },
            }
            at = at + 1;
        }
        assert(widths@ =~= widths_of(items@).unwrap());
        Some(widths)
    }

    /// The command that the pair `key: value` gives.
    fn from_entry(key: &str, value: &YamlNode) -> (parsed: Result<
        CommentCommand,
        CommandParseError,
    >)
        ensures
            parsed_view(parsed) == command_of_entry(key@, *value),
    {
        if same_text(key, "column_layout") {
            match value {
                YamlNode::Sequence(items) => match Self::widths(items) {
                    Some(widths) => Ok(CommentCommand::InitColumnLayout(widths)),
                    None => Err(
                        failure(
                            CommandProblem::InvalidArgument,
                            "every column width must be an integer from 0 to 255",
                        ),
                    ),
                },
                _ => Err(
                    failure(CommandProblem::InvalidArgument, "the column widths must be a list"),
                ),
            }
        } else if same_text(key, "column") {
            match value {
                YamlNode::Number(number) => match number.unsigned {
                    Some(column) => {
                        if column <= usize::MAX as u64 {
                            Ok(CommentCommand::Column(column as usize))
                        } else {
                            Err(
                                failure(
                                    CommandProblem::InvalidArgument,
                                    "the column index is too large",
                                ),
                            )
                        }
                    },
                    None => Err(
                        failure(
                            CommandProblem::InvalidArgument,
                            "the column index must be an unsigned integer",
                        ),
                    ),
                },
                _ => Err(
                    failure(
                        CommandProblem::InvalidArgument,
                        "the column index must be an unsigned integer",
                    ),
                ),
            }
        } else if same_text(key, "pause") || same_text(key, "end_slide") || same_text(
            key,
            "reset_layout",
        ) {
            Err(failure(CommandProblem::InvalidArgument, "the command takes no argument"))
        } else {
            Err(failure(CommandProblem::UnknownCommand, "unknown command"))
        }
    }

    /// The command that a YAML document gives.
    pub fn from_node(node: &YamlNode) -> (parsed: Result<CommentCommand, CommandParseError>)
        ensures
            parsed_view(parsed) == command_of_node(*node),
    {
        match node {
            YamlNode::Text(word) => Self::from_word(word.as_str()),
            YamlNode::Mapping(entries) => {
                if entries.len() != 1 {
                    return Err(
                        failure(CommandProblem::Malformed, "expected a single `key: value` pair"),
                    );
                }
                let entry = &entries[0];
                match &entry.0 {
                    YamlNode::Text(key) => Self::from_entry(key.as_str(), &entry.1),
                    _ => Err(failure(CommandProblem::Malformed, "the key must be a word")),
                }
            },
            _ => Err(failure(CommandProblem::Malformed, "expected a word or a `key: value` pair")),
        }
    }

    /// The command that the text of a one-line comment gives: the text is read
    /// as YAML, and the document has to be one of `pause`, `end_slide`,
    /// `reset_layout`, `column_layout: [..]` and `column: n`.
    pub fn from_str(text: &str) -> (parsed: Result<CommentCommand, CommandParseError>)
        ensures
            parsed_view(parsed) == command_of(text@),
    {
        match parse_document(text) {
            Ok(node) => Self::from_node(&node),
            Err(error) => Err(
                CommandParseError { problem: CommandProblem::Syntax, detail: error_message(&error) },
            ),
        }
    }
}

} // verus!
