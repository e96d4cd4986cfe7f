use slideshow::elements::are_valid;
use slideshow::elements::MarkdownElement;
use slideshow::elements::Table;
use slideshow::elements::TableRow;
use slideshow::layout::LayoutState;
use slideshow::strings::contains_char;
use slideshow::strings::decimal_string;
use slideshow::strings::is_whitespace;
use slideshow::strings::lines;
use slideshow::strings::repeated;
use slideshow::strings::replace;
use slideshow::strings::same_text;
use slideshow::strings::trim_end;
use slideshow::style::Color;
use slideshow::style::Colors;
use slideshow::style::TextStyle;
use slideshow::text::Text;
use slideshow::text::WeightedText;
use slideshow::text::StyledText;
use slideshow::theme::Alignment;
use slideshow::theme::ElementType;
use slideshow::theme::Margin;
use slideshow::theme::PresentationTheme;

#[test]
fn lines_are_split_as_std_splits_them() {
    for text in ["", "a", "a\n", "a\nb", "a\r\nb\r\n", "\n", "\n\na\n\n", "a\rb", "a\r", "a\n\r", "\r\n", "x\r\n\r\ny"] {
        let expected: Vec<String> = text.lines().map(str::to_string).collect();
        assert_eq!(lines(text), expected, "lines of {text:?}");
    }
}

#[test]
fn white_space_is_trimmed_as_std_trims_it() {
    for text in ["", "a", "a  ", "  a", " a \t\n", "a\u{a0}\u{3000}", "\u{2003}", "a\u{200b}", "a b "] {
        assert_eq!(trim_end(text), text.trim_end(), "trim of {text:?}");
    }
    for code in 0..0x3100u32 {
        if let Some(character) = char::from_u32(code) {
            assert_eq!(is_whitespace(character), character.is_whitespace(), "white space {code:x}");
        }
    }
}

#[test]
fn patterns_are_replaced_as_std_replaces_them() {
    for (text, pattern, with) in [
        ("", "a", "b"),
        ("aaa", "a", "bb"),
        ("aaa", "aa", "b"),
        ("abcabc", "bc", ""),
        ("{author} and {author}", "{author}", "bob"),
        ("ab", "abc", "x"),
        ("苹果苹", "苹", "apple"),
    ] {
        assert_eq!(replace(text, pattern, with), text.replace(pattern, with));
    }
}

#[test]
fn numbers_and_texts() {
    assert_eq!(decimal_string(0), "0");
    assert_eq!(decimal_string(7), "7");
    assert_eq!(decimal_string(10), "10");
    assert_eq!(decimal_string(1234567890), "1234567890");
    assert_eq!(decimal_string(u128::MAX), u128::MAX.to_string());
    assert_eq!(repeated('─', 3), "───");
    assert_eq!(repeated('x', 0), "");
    assert!(contains_char("a\nb", '\n'));
    assert!(!contains_char("ab", '\n'));
    assert!(same_text("苹果", "苹果"));
    assert!(!same_text("ab", "abc"));
    assert!(!same_text("abd", "abc"));
}

#[test]
fn text_styles() {
    let red = Colors { foreground: Some(Color::Red), background: None };
    let blue = Colors { foreground: Some(Color::Blue), background: Some(Color::Black) };
    let style = TextStyle::default().italics().colors(red);
    let merged = style.merge(&TextStyle::default().bold().colors(blue));
    assert!(merged.bold && merged.italics && !merged.strikethrough && !merged.code);
    // The style's own colors stay; missing ones are taken over.
    assert_eq!(merged.colors, Colors { foreground: Some(Color::Red), background: Some(Color::Black) });
    assert!(TextStyle::default().code().is_code());
    assert!(TextStyle::default().strikethrough().strikethrough);
    assert_eq!(Colors::default(), Colors { foreground: None, background: None });

    let text = Text { chunks: vec![StyledText::plain("a "), StyledText::new("苹".to_string(), style)] };
    assert_eq!(text.content(), "a 苹");
    assert_eq!(text.width(), 4);
    let styled = text.styled(&TextStyle::default().bold());
    assert!(styled.chunks.iter().all(|chunk| chunk.style.bold));
    assert_eq!(styled.chunks[1].style.colors, red);
    assert_eq!(WeightedText::new(StyledText::plain("苹果")).width, 4);
}

#[test]
fn alignments_of_the_theme() {
    let mut theme = PresentationTheme::default();
    assert_eq!(theme.alignment(ElementType::Code), Alignment::default());
    assert_eq!(Alignment::default(), Alignment::Left { margin: Margin::Fixed(0) });
    let center = Alignment::Center { minimum_margin: Margin::Percent(8), minimum_size: 40 };
    theme.code.alignment = Some(center);
    theme.headings.h3.alignment = Some(Alignment::Right { margin: Margin::Fixed(2) });
    assert_eq!(theme.alignment(ElementType::Code), center);
    assert_eq!(theme.alignment(ElementType::Heading3), Alignment::Right { margin: Margin::Fixed(2) });
    assert_eq!(theme.alignment(ElementType::Heading2), Alignment::default());
    assert_eq!(theme.alignment(ElementType::Paragraph), Alignment::default());
    assert_eq!(theme.duplicate(), theme);
}

#[test]
fn layout_states() {
    assert!(LayoutState::Default.enter_column(0).is_err());
    let layout = LayoutState::InLayout { columns_count: 2 };
    assert_eq!(layout.enter_column(1), Ok(LayoutState::InColumn { column: 1, columns_count: 2 }));
    assert!(layout.enter_column(2).is_err());
    let column = LayoutState::InColumn { column: 1, columns_count: 2 };
    assert_eq!(column.enter_column(0), Ok(LayoutState::InColumn { column: 0, columns_count: 2 }));
    assert!(column.enter_column(1).is_err());
}

#[test]
fn valid_elements() {
    let heading = |level: u8| MarkdownElement::Heading { level, text: Text::plain("a") };
    assert!(are_valid(&vec![heading(1), heading(6), MarkdownElement::ThematicBreak]));
    assert!(!are_valid(&vec![heading(1), heading(7)]));
    assert!(!are_valid(&vec![heading(0)]));
    let row = |cells: usize| TableRow((0..cells).map(|_| Text::plain("c")).collect());
    let table = Table { header: row(2), rows: vec![row(2), row(2)] };
    assert!(table.is_valid());
    assert_eq!(table.columns(), 2);
    assert!(!MarkdownElement::Table(Table { header: row(2), rows: vec![row(2), row(3)] }).is_valid());
}
