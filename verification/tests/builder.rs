use slideshow::builder::BuildAnswer;
use slideshow::builder::BuildRequest;
use slideshow::builder::BuildStep;
use slideshow::builder::CodeLine;
use slideshow::builder::PresentationBuilder;
use slideshow::command::CommandProblem;
use slideshow::elements::Code;
use slideshow::elements::ListItem;
use slideshow::elements::ListItemType;
use slideshow::elements::MarkdownElement;
use slideshow::elements::ParagraphElement;
use slideshow::elements::ProgrammingLanguage;
use slideshow::elements::Table;
use slideshow::elements::TableRow;
use slideshow::error::BuildError;
use slideshow::error::LoadImageError;
use slideshow::error::LoadThemeError;
use slideshow::error::MetadataProblem;
use slideshow::presentation::Image;
use slideshow::presentation::PreformattedLine;
use slideshow::presentation::Presentation;
use slideshow::presentation::RenderOperation;
use slideshow::style::Color;
use slideshow::style::Colors;
use slideshow::style::TextStyle;
use slideshow::text::StyledText;
use slideshow::text::Text;
use slideshow::theme::Alignment;
use slideshow::theme::AuthorPositioning;
use slideshow::theme::FooterStyle;
use slideshow::theme::Margin;
use slideshow::theme::PresentationTheme;
use unicode_width::UnicodeWidthStr;

/// Answers as an outside without files and without themes would, and colors
/// every line of code.
fn answer(request: &BuildRequest) -> BuildAnswer {
    match request {
        BuildRequest::NamedTheme { .. } => BuildAnswer::NamedTheme(None),
        BuildRequest::ThemeFile { path } => {
            BuildAnswer::ThemeFile(Err(LoadThemeError { message: format!("no file {path}") }))
        }
        BuildRequest::ThemeOverrides { .. } => BuildAnswer::ThemeOverrides(Err("not understood".to_string())),
        BuildRequest::CodeTheme { name } => BuildAnswer::CodeTheme(name == "base16-ocean.dark"),
        BuildRequest::Highlight { code, .. } => BuildAnswer::Highlight(
            code.lines()
                .map(|line| CodeLine {
                    formatted: format!("\u{1b}[38;2;192;197;206m{line}\u{1b}[0m  "),
                    plain: format!("{line}  "),
                })
                .collect(),
        ),
        BuildRequest::Image { path } => {
            if path == "here.png" {
                BuildAnswer::Image(Ok(Image { handle: 7 }))
            } else {
                BuildAnswer::Image(Err(LoadImageError { message: format!("no file {path}") }))
            }
        }
    }
}

fn try_build_with(theme: PresentationTheme, elements: Vec<MarkdownElement>) -> Result<Presentation, BuildError> {
    let builder = PresentationBuilder::new(theme);
    let mut step = builder.build(elements);
    loop {
        step = match step {
            BuildStep::Finished(presentation) => return Ok(presentation),
            BuildStep::Failed(error) => return Err(error),
            BuildStep::Rejected(_) => panic!("the answer was rejected"),
            BuildStep::Pending(pending) => {
                let answer = answer(pending.request());
                pending.resume(answer)
            }
        };
    }
}

fn try_build_presentation(elements: Vec<MarkdownElement>) -> Result<Presentation, BuildError> {
    try_build_with(PresentationTheme::default(), elements)
}

fn build_presentation(elements: Vec<MarkdownElement>) -> Presentation {
    try_build_presentation(elements).expect("build failed")
}

fn build_pause() -> MarkdownElement {
    MarkdownElement::Comment("pause".into())
}

fn build_end_slide() -> MarkdownElement {
    MarkdownElement::Comment("end_slide".into())
}

fn build_column_layout(width: u8) -> MarkdownElement {
    MarkdownElement::Comment(format!("column_layout: [{width}]"))
}

fn build_column(column: u8) -> MarkdownElement {
    MarkdownElement::Comment(format!("column: {column}"))
}

fn is_visible(operation: &RenderOperation) -> bool {
    match operation {
        RenderOperation::ClearScreen
        | RenderOperation::SetColors(_)
        | RenderOperation::JumpToVerticalCenter
        | RenderOperation::JumpToBottom
        | RenderOperation::InitColumnLayout { .. }
        | RenderOperation::EnterColumn { .. }
        | RenderOperation::ExitLayout
        | RenderOperation::ApplyMargin(_)
        | RenderOperation::PopMargin => false,
        RenderOperation::RenderTextLine { .. }
        | RenderOperation::RenderSeparator
        | RenderOperation::RenderLineBreak
        | RenderOperation::RenderImage(_)
        | RenderOperation::RenderPreformattedLine(_)
        | RenderOperation::RenderDynamic(_) => true,
    }
}

fn extract_text_lines(operations: &[RenderOperation]) -> Vec<String> {
    let mut output = Vec::new();
    for operation in operations {
        if let RenderOperation::RenderTextLine { line, .. } = operation {
            let texts: Vec<_> = line.texts.iter().map(|text| text.text.text.clone()).collect();
            output.push(texts.join(""));
        }
    }
    output
}

fn content(presentation: &Presentation, slide: usize) -> Vec<RenderOperation> {
    let operations = &presentation.iter_slides()[slide].render_operations;
    operations[4..operations.len() - 4].to_vec()
}

fn heading(text: &str) -> MarkdownElement {
    MarkdownElement::Heading { text: Text::plain(text), level: 1 }
}

#[test]
fn prelude_appears_once() {
    let elements = vec![
        MarkdownElement::FrontMatter("author: bob".to_string()),
        MarkdownElement::Heading { text: Text::plain("hello"), level: 1 },
        MarkdownElement::Comment("end_slide".to_string()),
        MarkdownElement::Heading { text: Text::plain("bye"), level: 1 },
    ];
    let presentation = build_presentation(elements);
    for (index, slide) in presentation.iter_slides().iter().enumerate() {
        let clear_screen_count =
            slide.render_operations.iter().filter(|op| matches!(op, RenderOperation::ClearScreen)).count();
        let set_colors_count =
            slide.render_operations.iter().filter(|op| matches!(op, RenderOperation::SetColors(_))).count();
        assert_eq!(clear_screen_count, 1, "{clear_screen_count} clear screens in slide {index}");
        assert_eq!(set_colors_count, 1, "{set_colors_count} clear screens in slide {index}");
    }
}

#[test]
fn slides_start_with_one_newline() {
    let elements = vec![
        MarkdownElement::FrontMatter("author: bob".to_string()),
        MarkdownElement::Heading { text: Text::plain("hello"), level: 1 },
        MarkdownElement::Comment("end_slide".to_string()),
        MarkdownElement::Heading { text: Text::plain("bye"), level: 1 },
    ];
    let presentation = build_presentation(elements);
    assert_eq!(presentation.iter_slides().iter().count(), 3);

    // The introduction slide is laid out in its own way.
    let slides = presentation.into_slides().into_iter().skip(1);
    for slide in slides {
        let mut ops = slide.render_operations.into_iter().filter(is_visible);
        // The first visible instruction is a line break,
        assert!(matches!(ops.next(), Some(RenderOperation::RenderLineBreak)));
        // and the second is none.
        assert!(!matches!(ops.next(), Some(RenderOperation::RenderLineBreak)));
    }
}

#[test]
fn preformatted_blocks_account_for_unicode_widths() {
    let text = "苹果".to_string();
    let elements = vec![
        MarkdownElement::BlockQuote(vec![text.clone()]),
        MarkdownElement::Code(Code { contents: text.clone(), language: ProgrammingLanguage::Unknown }),
    ];
    let presentation = build_presentation(elements);
    let slides = presentation.into_slides();
    let lengths: Vec<_> = slides[0]
        .render_operations
        .iter()
        .filter_map(|op| match op {
            RenderOperation::RenderPreformattedLine(PreformattedLine { block_length, unformatted_length, .. }) => {
                Some((block_length, unformatted_length))
            }
            _ => None,
        })
        .collect();
    assert_eq!(lengths.len(), 2);
    let width = &text.width();
    assert_eq!(*width, 4);
    assert_eq!(lengths[0], (width, width));
    assert_eq!(lengths[1], (width, width));
}

#[test]
fn table() {
    let elements = vec![MarkdownElement::Table(Table {
        header: TableRow(vec![Text::plain("key"), Text::plain("value"), Text::plain("other")]),
        rows: vec![TableRow(vec![Text::plain("potato"), Text::plain("bar"), Text::plain("yes")])],
    })];
    let slides = build_presentation(elements).into_slides();
    let operations: Vec<_> =
        slides.into_iter().next().unwrap().render_operations.into_iter().filter(|op| is_visible(op)).collect();
    let lines = extract_text_lines(&operations);
    let expected_lines = &["key    │ value │ other", "───────┼───────┼──────", "potato │ bar   │ yes  "];
    assert_eq!(lines, expected_lines);
}

#[test]
fn table_rows_of_given_widths() {
    let texts = |text: &Text| text.chunks.iter().map(|chunk| chunk.text.as_str()).collect::<Vec<_>>().join("");
    let row = TableRow(vec![Text::plain("key"), Text::plain("value"), Text::plain("other")]);
    let flattened = PresentationBuilder::flatten_table_row(&row, &vec![3, 5, 5], &vec![6, 5, 5]);
    assert_eq!(texts(&flattened), "key    │ value │ other");
    // A cell that is as wide as its column, or wider, is not filled up.
    let flattened = PresentationBuilder::flatten_table_row(&row, &vec![3, 5, 5], &vec![3, 4, 7]);
    assert_eq!(texts(&flattened), "key │ value │ other  ");
    assert_eq!(texts(&PresentationBuilder::table_rule(&vec![6, 5, 5])), "───────┼───────┼──────");
    assert_eq!(texts(&PresentationBuilder::table_rule(&vec![2])), "───");
    assert_eq!(texts(&PresentationBuilder::table_rule(&vec![1, 0, 0, 2])), "──┼──┼──┼───");
    assert_eq!(texts(&PresentationBuilder::table_rule(&vec![])), "");
}

#[test]
fn table_with_wide_glyphs() {
    let elements = vec![MarkdownElement::Table(Table {
        header: TableRow(vec![Text::plain("a"), Text::plain("b")]),
        rows: vec![TableRow(vec![Text::plain("苹果"), Text::plain("c")])],
    })];
    let presentation = build_presentation(elements);
    let lines = extract_text_lines(&content(&presentation, 0));
    assert_eq!(lines, &["a    │ b", "─────┼──", "苹果 │ c"]);
}

#[test]
fn layout_without_init() {
    let elements = vec![MarkdownElement::Comment("column: 0".into())];
    let result = try_build_presentation(elements);
    assert!(result.is_err());
    assert_eq!(result.unwrap_err(), BuildError::NoLayout);
}

#[test]
fn already_in_column() {
    let elements = vec![
        MarkdownElement::Comment("column_layout: [1]".into()),
        MarkdownElement::Comment("column: 0".into()),
        MarkdownElement::Comment("column: 0".into()),
    ];
    let result = try_build_presentation(elements);
    assert!(result.is_err());
    assert_eq!(result.unwrap_err(), BuildError::AlreadyInColumn);
}

#[test]
fn column_index_overflow() {
    let elements =
        vec![MarkdownElement::Comment("column_layout: [1]".into()), MarkdownElement::Comment("column: 1".into())];
    let result = try_build_presentation(elements);
    assert!(result.is_err());
    assert_eq!(result.unwrap_err(), BuildError::ColumnIndexTooLarge);
}

fn invalid_layout(definition: &str, reason: &str) {
    let elements = vec![MarkdownElement::Comment(definition.into())];
    let result = try_build_presentation(elements);
    assert!(result.is_err());
    assert_eq!(result.unwrap_err(), BuildError::InvalidLayout(match reason {
        "empty" => "need at least one column",
        _ => "can't have zero sized columns",
    }));
}

#[test]
fn invalid_layouts_empty() {
    invalid_layout("column_layout: []", "empty");
}

#[test]
fn invalid_layouts_zero() {
    invalid_layout("column_layout: [0]", "zero");
}

#[test]
fn invalid_layouts_one_is_zero() {
    invalid_layout("column_layout: [1, 0]", "zero");
}

#[test]
fn operation_without_enter_column() {
    let elements = vec![MarkdownElement::Comment("column_layout: [1]".into()), MarkdownElement::ThematicBreak];
    let result = try_build_presentation(elements);
    assert!(result.is_err());
    assert_eq!(result.unwrap_err(), BuildError::NotInsideColumn);
}

#[test]
fn end_slide_inside_layout() {
    let elements = vec![build_column_layout(1), build_end_slide()];
    let presentation = build_presentation(elements);
    assert_eq!(presentation.iter_slides().iter().count(), 2);
}

#[test]
fn end_slide_inside_column() {
    let elements = vec![build_column_layout(1), build_column(0), build_end_slide()];
    let presentation = build_presentation(elements);
    assert_eq!(presentation.iter_slides().iter().count(), 2);
}

#[test]
fn pause_inside_layout() {
    let elements = vec![build_column_layout(1), build_pause(), build_column(0)];
    let presentation = build_presentation(elements);
    assert_eq!(presentation.iter_slides().iter().count(), 2);
}

#[test]
fn layout_left_right_after_it_was_set_up() {
    let elements = vec![build_column_layout(2), MarkdownElement::Comment("reset_layout".into()), heading("a")];
    let presentation = build_presentation(elements);
    assert_eq!(presentation.iter_slides().len(), 1);
    let operations = content(&presentation, 0);
    assert_eq!(operations[0], RenderOperation::InitColumnLayout { columns: vec![2] });
    assert_eq!(operations[1], RenderOperation::ExitLayout);
    assert_eq!(operations[2], RenderOperation::RenderLineBreak);
}

#[test]
fn columns_can_be_switched() {
    let elements = vec![
        MarkdownElement::Comment("column_layout: [1, 2]".into()),
        build_column(1),
        heading("right"),
        build_column(0),
        heading("left"),
    ];
    let presentation = build_presentation(elements);
    let operations = content(&presentation, 0);
    assert_eq!(operations[0], RenderOperation::InitColumnLayout { columns: vec![1, 2] });
    assert_eq!(operations[1], RenderOperation::EnterColumn { column: 1 });
    assert!(operations.contains(&RenderOperation::EnterColumn { column: 0 }));
}

#[test]
fn every_slide_has_prelude_and_footer() {
    let elements = vec![heading("one"), build_pause(), heading("two"), build_end_slide(), heading("three")];
    let presentation = build_presentation(elements);
    assert_eq!(presentation.iter_slides().len(), 3);
    for (index, slide) in presentation.iter_slides().iter().enumerate() {
        let operations = &slide.render_operations;
        assert!(matches!(operations[0], RenderOperation::SetColors(_)));
        assert_eq!(operations[1], RenderOperation::ClearScreen);
        assert!(matches!(operations[2], RenderOperation::ApplyMargin(_)));
        assert_eq!(operations[3], RenderOperation::RenderLineBreak);
        let end = operations.len();
        assert_eq!(operations[end - 4], RenderOperation::ExitLayout);
        assert_eq!(operations[end - 3], RenderOperation::PopMargin);
        assert_eq!(operations[end - 2], RenderOperation::JumpToBottom);
        match &operations[end - 1] {
            RenderOperation::RenderDynamic(generator) => assert_eq!(generator.current_slide, index),
            other => panic!("no footer but {other:?}"),
        }
    }
    assert_eq!(presentation.footer_context().total_slides, 3);
}

#[test]
fn a_block_quote_sets_the_colors_twice_more() {
    let elements = vec![MarkdownElement::BlockQuote(vec!["wise".to_string()])];
    let presentation = build_presentation(elements);
    let operations = &presentation.iter_slides()[0].render_operations;
    let set_colors = operations.iter().filter(|op| matches!(op, RenderOperation::SetColors(_))).count();
    let clear_screen = operations.iter().filter(|op| matches!(op, RenderOperation::ClearScreen)).count();
    assert_eq!(set_colors, 3);
    assert_eq!(clear_screen, 1);
}

#[test]
fn pause_shows_the_slide_so_far_again() {
    let elements = vec![heading("one"), build_pause(), heading("two")];
    let presentation = build_presentation(elements);
    assert_eq!(presentation.iter_slides().len(), 2);
    let first = content(&presentation, 0);
    let second = content(&presentation, 1);
    assert_eq!(extract_text_lines(&first), &["one"]);
    assert_eq!(extract_text_lines(&second), &["one", "two"]);
    assert_eq!(&second[..first.len()], &first[..]);
}

fn item(text: &str, item_type: ListItemType, depth: u8) -> ListItem {
    ListItem { depth, contents: Text::plain(text), item_type }
}

#[test]
fn pause_after_a_list_drops_the_line_break() {
    let list = |text: &str| MarkdownElement::List(vec![item(text, ListItemType::Unordered, 0)]);
    let presentation = build_presentation(vec![list("a"), build_pause(), list("b")]);
    assert_eq!(presentation.iter_slides().len(), 2);
    let first = content(&presentation, 0);
    // The prefix, the text and the item's line break: the line break after the
    // list is gone.
    assert_eq!(first.len(), 3);
    let second = content(&presentation, 1);
    assert_eq!(second.len(), 7);
    assert_eq!(extract_text_lines(&second), &["   •", "a", "   •", "b"]);

    let paragraph = MarkdownElement::Paragraph(vec![ParagraphElement::Text(Text::plain("p"))]);
    let presentation = build_presentation(vec![paragraph, build_pause()]);
    // After a paragraph the line break stays.
    assert_eq!(content(&presentation, 0).len(), 3);
}

#[test]
fn list_items() {
    let elements = vec![MarkdownElement::List(vec![
        item("a", ListItemType::Unordered, 0),
        item("b", ListItemType::Unordered, 1),
        item("c", ListItemType::Unordered, 2),
        item("d", ListItemType::OrderedParens(12), 0),
        item("e", ListItemType::OrderedPeriod(3), 1),
    ])];
    let presentation = build_presentation(elements);
    let operations = content(&presentation, 0);
    let lines = extract_text_lines(&operations);
    assert_eq!(lines, &["   •", "a", "      ◦", "b", "         ▪", "c", "   12) ", "d", "      3. ", "e"]);
    let margins: Vec<_> = operations
        .iter()
        .filter_map(|op| match op {
            RenderOperation::RenderTextLine { alignment: Alignment::Left { margin: Margin::Fixed(margin) }, .. } => {
                Some(*margin)
            }
            _ => None,
        })
        .collect();
    // Every other line is an item's text, whose margin is the width of its prefix.
    assert_eq!(margins, &[0, 4, 0, 7, 0, 10, 0, 7, 0, 9]);
}

#[test]
fn paragraph_lines() {
    let elements = vec![MarkdownElement::Paragraph(vec![
        ParagraphElement::Text(Text::plain("one")),
        ParagraphElement::LineBreak,
        ParagraphElement::Text(Text::plain("two")),
    ])];
    let presentation = build_presentation(elements);
    let operations = content(&presentation, 0);
    assert_eq!(extract_text_lines(&operations), &["one", "two"]);
    // Two lines, each with its line break, and the line break after the element.
    assert_eq!(operations.len(), 5);
    assert_eq!(operations[1], RenderOperation::RenderLineBreak);
    assert_eq!(operations[3], RenderOperation::RenderLineBreak);
    assert_eq!(operations[4], RenderOperation::RenderLineBreak);
}

fn themed() -> PresentationTheme {
    let mut theme = PresentationTheme::default();
    theme.headings.h2.prefix = Some("##".to_string());
    theme.headings.h2.colors = Colors { foreground: Some(Color::Red), background: None };
    theme.inline_code.colors = Colors { foreground: Some(Color::Green), background: None };
    theme.slide_title.padding_top = Some(2);
    theme.slide_title.padding_bottom = Some(1);
    theme.slide_title.separator = true;
    theme.block_quote.prefix = Some("▍ ".to_string());
    theme.code.padding.horizontal = Some(2);
    theme.code.padding.vertical = Some(1);
    theme.intro_slide.author.positioning = AuthorPositioning::PageBottom;
    theme
}

#[test]
fn headings_take_the_themes_prefix_and_style() {
    let text = Text {
        chunks: vec![
            StyledText::plain("see "),
            StyledText::new("code".to_string(), TextStyle::default().code()),
        ],
    };
    let elements = vec![MarkdownElement::Heading { level: 2, text }];
    let presentation = try_build_with(themed(), elements).unwrap();
    let operations = content(&presentation, 0);
    assert_eq!(operations.len(), 3);
    match &operations[0] {
        RenderOperation::RenderTextLine { line, .. } => {
            let texts: Vec<_> = line.texts.iter().map(|text| text.text.text.as_str()).collect();
            assert_eq!(texts, &["## ", "see ", "code"]);
            assert_eq!(line.texts[0].width, 3);
            assert!(line.texts.iter().all(|text| text.text.style.bold));
            assert_eq!(line.texts[1].text.style.colors.foreground, Some(Color::Red));
            // Inline code takes the colors that the theme has for it.
            assert_eq!(line.texts[2].text.style.colors.foreground, Some(Color::Green));
        }
        other => panic!("no text line but {other:?}"),
    }
}

#[test]
fn slide_title_has_padding_and_separator() {
    let elements = vec![MarkdownElement::SetexHeading { text: Text::plain("title") }, heading("x")];
    let presentation = try_build_with(themed(), elements).unwrap();
    let operations = content(&presentation, 0);
    assert_eq!(operations[0], RenderOperation::RenderLineBreak);
    assert_eq!(operations[1], RenderOperation::RenderLineBreak);
    assert!(matches!(operations[2], RenderOperation::RenderTextLine { .. }));
    assert_eq!(operations[3], RenderOperation::RenderLineBreak);
    assert_eq!(operations[4], RenderOperation::RenderLineBreak);
    assert_eq!(operations[5], RenderOperation::RenderSeparator);
    assert_eq!(operations[6], RenderOperation::RenderLineBreak);
    // No line break of the element's own follows a title.
    assert!(matches!(operations[7], RenderOperation::RenderTextLine { .. }));
}

#[test]
fn block_quote_lines_share_the_block() {
    let elements = vec![MarkdownElement::BlockQuote(vec!["a".to_string(), "苹果".to_string()])];
    let presentation = try_build_with(themed(), elements).unwrap();
    let lines: Vec<_> = content(&presentation, 0)
        .into_iter()
        .filter_map(|op| match op {
            RenderOperation::RenderPreformattedLine(line) => Some(line),
            _ => None,
        })
        .collect();
    assert_eq!(lines.len(), 2);
    assert_eq!(lines[0].text, "▍ a");
    assert_eq!(lines[0].unformatted_length, 3);
    assert_eq!(lines[0].block_length, 6);
    assert_eq!(lines[1].text, "▍ 苹果");
    assert_eq!(lines[1].unformatted_length, 6);
    assert_eq!(lines[1].block_length, 6);
}

#[test]
fn code_is_padded_and_trimmed() {
    let elements =
        vec![MarkdownElement::Code(Code { contents: "fn a()\nb".to_string(), language: ProgrammingLanguage::Rust })];
    let builder = PresentationBuilder::new(themed());
    let pending = match builder.build(elements) {
        BuildStep::Pending(pending) => pending,
        _ => panic!("no request"),
    };
    match pending.request() {
        BuildRequest::Highlight { code, language } => {
            assert_eq!(code, "\n  fn a()\n  b\n\n");
            assert_eq!(*language, ProgrammingLanguage::Rust);
        }
        other => panic!("no highlight request but {other:?}"),
    }
    let answer = answer(pending.request());
    let presentation = match pending.resume(answer) {
        BuildStep::Finished(presentation) => presentation,
        _ => panic!("not finished"),
    };
    let lines: Vec<_> = content(&presentation, 0)
        .into_iter()
        .filter_map(|op| match op {
            RenderOperation::RenderPreformattedLine(line) => Some(line),
            _ => None,
        })
        .collect();
    assert_eq!(lines.len(), 4);
    // The widest line of the code is 6 columns wide, and the padding is added.
    assert!(lines.iter().all(|line| line.block_length == 8));
    assert_eq!(lines[1].text, "\u{1b}[38;2;192;197;206m  fn a()\u{1b}[0m");
    // The two spaces at the end of the line are trimmed from its width.
    assert_eq!(lines[1].unformatted_length, 8);
    assert_eq!(lines[0].unformatted_length, 0);
    assert_eq!(lines[2].unformatted_length, 3);
}

#[test]
fn code_block_is_as_wide_as_the_code_and_its_padding() {
    let mut theme = PresentationTheme::default();
    theme.code.padding.horizontal = Some(3);
    let elements =
        vec![MarkdownElement::Code(Code { contents: "苹果\nab".to_string(), language: ProgrammingLanguage::Unknown })];
    let pending = match PresentationBuilder::new(theme).build(elements) {
        BuildStep::Pending(pending) => pending,
        _ => panic!("no request"),
    };
    match pending.request() {
        BuildRequest::Highlight { code, .. } => assert_eq!(code, "   苹果\n   ab\n"),
        other => panic!("no highlight request but {other:?}"),
    }
    let answer = answer(pending.request());
    let presentation = match pending.resume(answer) {
        BuildStep::Finished(presentation) => presentation,
        _ => panic!("not finished"),
    };
    let lengths: Vec<_> = content(&presentation, 0)
        .into_iter()
        .filter_map(|op| match op {
            RenderOperation::RenderPreformattedLine(line) => Some((line.block_length, line.unformatted_length)),
            _ => None,
        })
        .collect();
    assert_eq!(lengths, vec![(7, 7), (7, 5)]);
}

#[test]
fn inconsistent_highlight_is_rejected() {
    let elements =
        vec![MarkdownElement::Code(Code { contents: "abc".to_string(), language: ProgrammingLanguage::Unknown })];
    let pending = match PresentationBuilder::new(PresentationTheme::default()).build(elements) {
        BuildStep::Pending(pending) => pending,
        _ => panic!("no request"),
    };
    // More is trimmed from the colored line than the line as it was is wide.
    let lines = vec![CodeLine { formatted: "abc      ".to_string(), plain: "abc".to_string() }];
    let pending = match pending.resume(BuildAnswer::Highlight(lines)) {
        BuildStep::Rejected(pending) => pending,
        _ => panic!("not rejected"),
    };
    // An answer to another request is rejected too, and the build still waits.
    let pending = match pending.resume(BuildAnswer::CodeTheme(true)) {
        BuildStep::Rejected(pending) => pending,
        _ => panic!("not rejected"),
    };
    assert!(matches!(pending.request(), BuildRequest::Highlight { .. }));
    let lines = vec![CodeLine { formatted: "abc".to_string(), plain: "abc".to_string() }];
    assert!(matches!(pending.resume(BuildAnswer::Highlight(lines)), BuildStep::Finished(_)));
}

#[test]
fn images() {
    let presentation = build_presentation(vec![MarkdownElement::Image("here.png".to_string())]);
    let operations = content(&presentation, 0);
    assert_eq!(operations, vec![RenderOperation::RenderImage(Image { handle: 7 }), RenderOperation::RenderLineBreak]);

    let result = try_build_presentation(vec![MarkdownElement::Image("gone.png".to_string())]);
    assert_eq!(result.unwrap_err(), BuildError::LoadImage(LoadImageError { message: "no file gone.png".to_string() }));
}

#[test]
fn intro_slide() {
    let elements = vec![
        MarkdownElement::FrontMatter("title: Talk\nsub_title: about things\nauthor: bob".to_string()),
        heading("hello"),
    ];
    let presentation = build_presentation(elements);
    assert_eq!(presentation.iter_slides().len(), 2);
    assert_eq!(presentation.footer_context().author, "bob");
    let operations = content(&presentation, 0);
    assert_eq!(operations[0], RenderOperation::JumpToVerticalCenter);
    assert_eq!(extract_text_lines(&operations), &["Talk", "about things", "bob"]);
    // Three line breaks stand between the subtitle's line break and the author.
    assert_eq!(operations.len(), 9);
    assert!(operations[5..8].iter().all(|op| *op == RenderOperation::RenderLineBreak));

    let elements = vec![MarkdownElement::FrontMatter("author: bob".to_string())];
    let presentation = try_build_with(themed(), elements).unwrap();
    let operations = content(&presentation, 0);
    assert_eq!(operations.len(), 5);
    assert_eq!(extract_text_lines(&operations), &["", "bob"]);
    assert_eq!(operations[3], RenderOperation::JumpToBottom);
}

#[test]
fn front_matter_without_intro() {
    let presentation = build_presentation(vec![MarkdownElement::FrontMatter("theme: {}".to_string()), heading("a")]);
    assert_eq!(presentation.iter_slides().len(), 1);
    let presentation = build_presentation(vec![heading("a"), MarkdownElement::FrontMatter("title: x".to_string())]);
    // A front matter counts only as the first element.
    assert_eq!(presentation.iter_slides().len(), 1);
}

fn metadata_problem(front_matter: &str) -> MetadataProblem {
    match try_build_presentation(vec![MarkdownElement::FrontMatter(front_matter.to_string())]) {
        Err(BuildError::InvalidMetadata(error)) => error.problem,
        other => panic!("no metadata error but {other:?}"),
    }
}

#[test]
fn invalid_metadata() {
    assert_eq!(metadata_problem("title: [unclosed"), MetadataProblem::Syntax);
    assert_eq!(metadata_problem("just a word"), MetadataProblem::NotAMapping);
    assert_eq!(metadata_problem("title: [a, b]"), MetadataProblem::InvalidField);
    assert_eq!(metadata_problem("theme: dark"), MetadataProblem::InvalidField);
    assert_eq!(metadata_problem("theme:\n  name: dark\n  path: a.yaml"), MetadataProblem::ThemeNameAndPath);
    assert_eq!(metadata_problem("theme:\n  name: dark"), MetadataProblem::UnknownTheme);
    assert_eq!(metadata_problem("theme:\n  overrides:\n    footer: 1"), MetadataProblem::InvalidOverrides);
    let error = try_build_presentation(vec![MarkdownElement::FrontMatter("theme:\n  name: dark".to_string())]);
    assert_eq!(error.unwrap_err().message(), "invalid presentation metadata: theme 'dark' does not exist");
}

#[test]
fn invalid_theme_file() {
    let result = try_build_presentation(vec![MarkdownElement::FrontMatter("theme:\n  path: a.yaml".to_string())]);
    assert_eq!(result.unwrap_err(), BuildError::InvalidTheme(LoadThemeError { message: "no file a.yaml".to_string() }));
}

#[test]
fn invalid_code_theme() {
    let mut theme = PresentationTheme::default();
    theme.code.theme_name = Some("nothing".to_string());
    assert_eq!(try_build_with(theme, vec![heading("a")]).unwrap_err(), BuildError::InvalidCodeTheme);
    let mut theme = PresentationTheme::default();
    theme.code.theme_name = Some("base16-ocean.dark".to_string());
    assert!(try_build_with(theme, vec![heading("a")]).is_ok());
}

#[test]
fn themes_are_asked_for_in_turn() {
    let front_matter = "theme:\n  name: dark\n  overrides:\n    footer:\n      style: empty";
    let elements = vec![MarkdownElement::FrontMatter(front_matter.to_string()), heading("a")];
    let pending = match PresentationBuilder::new(PresentationTheme::default()).build(elements) {
        BuildStep::Pending(pending) => pending,
        _ => panic!("no request"),
    };
    assert_eq!(*pending.request(), BuildRequest::NamedTheme { name: "dark".to_string() });
    let mut dark = PresentationTheme::default();
    dark.default_style.colors = Colors { foreground: Some(Color::White), background: Some(Color::Black) };
    let pending = match pending.resume(BuildAnswer::NamedTheme(Some(dark.clone()))) {
        BuildStep::Pending(pending) => pending,
        _ => panic!("no request"),
    };
    match pending.request() {
        BuildRequest::ThemeOverrides { base, .. } => assert_eq!(*base, dark),
        other => panic!("no overrides request but {other:?}"),
    }
    let mut merged = dark.clone();
    merged.footer = FooterStyle::ProgressBar { character: None, colors: dark.default_style.colors };
    let presentation = match pending.resume(BuildAnswer::ThemeOverrides(Ok(merged.clone()))) {
        BuildStep::Finished(presentation) => presentation,
        _ => panic!("not finished"),
    };
    let operations = &presentation.iter_slides()[0].render_operations;
    assert_eq!(operations[0], RenderOperation::SetColors(dark.default_style.colors));
    match operations.last() {
        Some(RenderOperation::RenderDynamic(generator)) => assert_eq!(generator.style, merged.footer),
        other => panic!("no footer but {other:?}"),
    }
}

#[test]
fn comments() {
    // A comment of several lines is a note.
    let presentation = build_presentation(vec![MarkdownElement::Comment("a note\nof two lines".to_string())]);
    assert_eq!(content(&presentation, 0), vec![RenderOperation::RenderLineBreak]);
    match try_build_presentation(vec![MarkdownElement::Comment("dance".to_string())]) {
        Err(BuildError::CommandParse(error)) => assert_eq!(error.problem, CommandProblem::UnknownCommand),
        other => panic!("no parse error but {other:?}"),
    }
}

#[test]
fn validate_column_layout() {
    assert_eq!(PresentationBuilder::validate_column_layout(&vec![1, 2]), Ok(()));
    assert_eq!(
        PresentationBuilder::validate_column_layout(&vec![]),
        Err(BuildError::InvalidLayout("need at least one column"))
    );
    assert_eq!(
        PresentationBuilder::validate_column_layout(&vec![3, 0]),
        Err(BuildError::InvalidLayout("can't have zero sized columns"))
    );
}

#[test]
fn widths_of_code() {
    assert_eq!(slideshow::builder::code_line_length(10, 7, 5), Some(8));
    assert_eq!(slideshow::builder::code_line_length(1, 7, 5), None);
    assert_eq!(slideshow::builder::code_line_length(10, 5, 7), None);
    assert_eq!(slideshow::builder::block_length(10, 2), Some(12));
    assert_eq!(slideshow::builder::block_length(usize::MAX - 1, 2), None);
    assert_eq!(slideshow::builder::widest(&vec!["a".to_string(), "苹果".to_string(), "abc".to_string()]), 4);
}

#[test]
fn error_messages() {
    assert_eq!(BuildError::NoLayout.message(), "can't enter layout: no layout defined");
    assert_eq!(BuildError::AlreadyInColumn.message(), "can't enter layout column: already in it");
    assert_eq!(BuildError::ColumnIndexTooLarge.message(), "can't enter layout column: column index too large");
    assert_eq!(
        BuildError::NotInsideColumn.message(),
        "need to enter layout column explicitly using `column` command"
    );
    assert_eq!(BuildError::InvalidCodeTheme.message(), "invalid code highlighter theme");
    assert_eq!(BuildError::InvalidLayout("need at least one column").message(), "invalid layout: need at least one column");
    assert_eq!(
        BuildError::LoadImage(LoadImageError { message: "gone".to_string() }).message(),
        "loading image: gone"
    );
    assert_eq!(BuildError::InvalidTheme(LoadThemeError { message: "bad".to_string() }).message(), "invalid theme: bad");
}
