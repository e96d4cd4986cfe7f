use slideshow::footer::progress_columns;
use slideshow::footer::FooterContext;
use slideshow::footer::FooterGenerator;
use slideshow::footer::WindowSize;
use slideshow::presentation::RenderOperation;
use slideshow::style::Color;
use slideshow::style::Colors;
use slideshow::theme::Alignment;
use slideshow::theme::FooterStyle;
use slideshow::theme::Margin;

fn context() -> FooterContext {
    FooterContext { total_slides: 5, author: "bob".to_string() }
}

fn screen(columns: u16) -> WindowSize {
    WindowSize { rows: 24, columns }
}

fn texts(operations: &[RenderOperation]) -> Vec<(String, Alignment)> {
    operations
        .iter()
        .map(|operation| match operation {
            RenderOperation::RenderTextLine { line, alignment } => {
                assert_eq!(line.texts.len(), 1);
                (line.texts[0].text.text.clone(), *alignment)
            }
            other => panic!("no text line but {other:?}"),
        })
        .collect()
}

#[test]
fn template_footer() {
    let colors = Colors { foreground: Some(Color::Blue), background: None };
    let generator = FooterGenerator {
        current_slide: 1,
        style: FooterStyle::Template {
            left: Some("{author}".to_string()),
            center: None,
            right: Some("{current_slide} / {total_slides} {current_slide}".to_string()),
            colors,
        },
    };
    let operations = generator.as_render_operations(&context(), &screen(80)).unwrap();
    let margin = Margin::Fixed(1);
    assert_eq!(
        texts(&operations),
        vec![
            ("bob".to_string(), Alignment::Left { margin }),
            ("2 / 5 2".to_string(), Alignment::Right { margin }),
        ]
    );
    match &operations[0] {
        RenderOperation::RenderTextLine { line, .. } => {
            assert_eq!(line.texts[0].text.style.colors, colors);
            assert_eq!(line.texts[0].width, 3);
        }
        _ => unreachable!(),
    }
}

#[test]
fn template_in_the_middle() {
    let generator = FooterGenerator {
        current_slide: 0,
        style: FooterStyle::Template {
            left: None,
            center: Some("{total_slides}{author}{nothing}".to_string()),
            right: None,
            colors: Colors { foreground: None, background: None },
        },
    };
    let operations = generator.as_render_operations(&context(), &screen(80)).unwrap();
    let alignment = Alignment::Center { minimum_size: 0, minimum_margin: Margin::Fixed(1) };
    assert_eq!(texts(&operations), vec![("5bob{nothing}".to_string(), alignment)]);
}

#[test]
fn render_template() {
    let colors = Colors { foreground: None, background: None };
    let alignment = Alignment::Left { margin: Margin::Fixed(3) };
    let operation = FooterGenerator::render_template("{current_slide}: {author}", "nine", &context(), colors, alignment);
    assert_eq!(texts(&[operation]), vec![("nine: bob".to_string(), alignment)]);
}

#[test]
fn progress_bar() {
    let colors = Colors { foreground: Some(Color::Red), background: None };
    let bar = |current_slide: usize, character: Option<char>, columns: u16| {
        let generator = FooterGenerator { current_slide, style: FooterStyle::ProgressBar { character, colors } };
        generator.as_render_operations(&context(), &screen(columns)).map(|operations| texts(&operations))
    };
    let left = Alignment::Left { margin: Margin::Fixed(0) };
    assert_eq!(bar(0, None, 10), Some(vec![("██".to_string(), left)]));
    assert_eq!(bar(1, None, 9), Some(vec![("████".to_string(), left)]));
    assert_eq!(bar(4, Some('-'), 7), Some(vec![("-------".to_string(), left)]));
    // A wide glyph fills two columns.
    assert_eq!(bar(4, Some('苹'), 7), Some(vec![("苹苹苹".to_string(), left)]));
    // A glyph without width fills none, and neither does a slide that is not there.
    assert_eq!(bar(0, Some('\u{301}'), 10), None);
    assert_eq!(bar(5, None, 10), None);
}

#[test]
fn progress_columns_round_up() {
    assert_eq!(progress_columns(10, 1, 0, 3), 4);
    assert_eq!(progress_columns(10, 1, 1, 3), 7);
    assert_eq!(progress_columns(10, 1, 2, 3), 10);
    assert_eq!(progress_columns(10, 2, 0, 2), 3);
    assert_eq!(progress_columns(0, 1, 0, 2), 0);
    assert_eq!(progress_columns(u16::MAX, 1, usize::MAX - 1, usize::MAX), 65535);
}

#[test]
fn empty_footer() {
    let generator = FooterGenerator { current_slide: 3, style: FooterStyle::Empty };
    assert_eq!(generator.as_render_operations(&context(), &screen(80)), Some(vec![]));
}
