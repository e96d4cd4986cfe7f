use slideshow::command::CommandProblem;
use slideshow::command::CommentCommand;
use slideshow::metadata::PresentationMetadata;
use slideshow::yaml::YamlNode;
use slideshow::yaml::YamlNumber;

fn command_formatting(input: &str, expected: CommentCommand) {
    let parsed: CommentCommand = CommentCommand::from_str(input).expect("deserialization failed");
    assert_eq!(parsed, expected);
}

#[test]
fn command_formatting_pause() {
    command_formatting("pause", CommentCommand::Pause);
}

#[test]
fn command_formatting_pause_with_spaces() {
    command_formatting(" pause ", CommentCommand::Pause);
}

#[test]
fn command_formatting_end_slide() {
    command_formatting("end_slide", CommentCommand::EndSlide);
}

#[test]
fn command_formatting_column_layout() {
    command_formatting("column_layout: [1, 2]", CommentCommand::InitColumnLayout(vec![1, 2]));
}

#[test]
fn command_formatting_column() {
    command_formatting("column: 1", CommentCommand::Column(1));
}

#[test]
fn command_formatting_reset_layout() {
    command_formatting("reset_layout", CommentCommand::ResetLayout);
}

fn problem(input: &str) -> CommandProblem {
    CommentCommand::from_str(input).expect_err("parsed").problem
}

#[test]
fn nothing_else_is_a_command() {
    assert_eq!(problem("column_layout: [1"), CommandProblem::Syntax);
    assert_eq!(problem("Pause"), CommandProblem::UnknownCommand);
    assert_eq!(problem("pauses"), CommandProblem::UnknownCommand);
    assert_eq!(problem("columns: 1"), CommandProblem::UnknownCommand);
    assert_eq!(problem("[pause]"), CommandProblem::Malformed);
    assert_eq!(problem("12"), CommandProblem::Malformed);
    assert_eq!(problem(""), CommandProblem::Malformed);
    assert_eq!(problem("{column: 1, pause: 2}"), CommandProblem::Malformed);
    assert_eq!(problem("1: 2"), CommandProblem::Malformed);
    assert_eq!(problem("pause: 1"), CommandProblem::InvalidArgument);
    assert_eq!(problem("pause: "), CommandProblem::InvalidArgument);
    assert_eq!(problem("column"), CommandProblem::InvalidArgument);
    assert_eq!(problem("column: -1"), CommandProblem::InvalidArgument);
    assert_eq!(problem("column: 1.5"), CommandProblem::InvalidArgument);
    assert_eq!(problem("column: [1]"), CommandProblem::InvalidArgument);
    assert_eq!(problem("column_layout: 1"), CommandProblem::InvalidArgument);
    assert_eq!(problem("column_layout: [1, 256]"), CommandProblem::InvalidArgument);
    assert_eq!(problem("column_layout: [a]"), CommandProblem::InvalidArgument);
}

#[test]
fn commands_from_nodes() {
    let number = |value: u64| YamlNode::Number(YamlNumber { unsigned: Some(value), text: value.to_string() });
    let node = YamlNode::Mapping(vec![(YamlNode::Text("column".to_string()), number(3))]);
    assert_eq!(CommentCommand::from_node(&node), Ok(CommentCommand::Column(3)));
    let node = YamlNode::Mapping(vec![(
        YamlNode::Text("column_layout".to_string()),
        YamlNode::Sequence(vec![number(255), number(0)]),
    )]);
    assert_eq!(CommentCommand::from_node(&node), Ok(CommentCommand::InitColumnLayout(vec![255, 0])));
    assert_eq!(CommentCommand::from_node(&YamlNode::Text("end_slide".to_string())), Ok(CommentCommand::EndSlide));
    assert_eq!(CommentCommand::from_node(&YamlNode::Null).unwrap_err().problem, CommandProblem::Malformed);
}

#[test]
fn command_error_message() {
    let error = CommentCommand::from_str("dance").unwrap_err();
    assert_eq!(error.message(), format!("invalid command: {}", error.detail));
}

#[test]
fn metadata_fields() {
    let metadata = PresentationMetadata::parse(
        "title: A talk\nsub_title: 2024\nauthor: ~\nother: ignored\ntheme:\n  path: my.yaml\n  overrides:\n    footer: none",
    )
    .unwrap();
    assert_eq!(metadata.title.as_deref(), Some("A talk"));
    assert_eq!(metadata.sub_title.as_deref(), Some("2024"));
    assert_eq!(metadata.author, None);
    assert_eq!(metadata.theme.name, None);
    assert_eq!(metadata.theme.path.as_deref(), Some("my.yaml"));
    assert_eq!(
        metadata.theme.overrides,
        Some(YamlNode::Mapping(vec![(YamlNode::Text("footer".to_string()), YamlNode::Text("none".to_string()))]))
    );
    let metadata = PresentationMetadata::parse("title: true").unwrap();
    assert_eq!(metadata.title.as_deref(), Some("true"));
    assert_eq!(metadata.theme.overrides, None);
}
