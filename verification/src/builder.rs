//! The builder: it turns the elements of a document into a presentation, and
//! asks for what only the outside can give.
use crate::command::CommentCommand;
use crate::elements::all_valid;
use crate::elements::ListItem;
use crate::elements::ListItemType;
use crate::elements::MarkdownElement;
use crate::elements::ParagraphElement;
use crate::elements::ProgrammingLanguage;
use crate::elements::Table;
use crate::elements::TableRow;
use crate::error::BuildError;
use crate::error::BuildErrorView;
use crate::error::LoadImageError;
use crate::error::LoadThemeError;
use crate::error::MetadataError;
use crate::error::MetadataProblem;
use crate::footer::FooterGenerator;
use crate::laws::lemma_resume;
use crate::laws::lemma_start;
use crate::model::open_in_turn;
use crate::opening::lemma_resume_leads;
use crate::opening::lemma_start_leads;
use crate::layout::layout_problem;
use crate::layout::LayoutState;
use crate::metadata::PresentationMetadata;
use crate::model::block_quote_operations;
use crate::model::body_operations;
use crate::model::cell_separator;
use crate::model::cell_width;
use crate::model::code_line;
use crate::model::code_operations;
use crate::model::column_width;
use crate::model::element_line;
use crate::model::footer;
use crate::model::heading_chunks;
use crate::model::heading_operations;
use crate::model::horizontal_padding;
use crate::model::intro_operations;
use crate::model::line_breaks;
use crate::model::line_consistent;
use crate::model::line_texts;
use crate::model::list_item_operations;
use crate::model::list_operations;
use crate::model::list_prefix;
use crate::model::max_line_width;
use crate::model::no_block_quotes;
use crate::model::padded_code;
use crate::model::padded_lines;
use crate::model::paragraph_operations;
use crate::model::prefixed;
use crate::model::prelude;
use crate::model::quote_lines;
use crate::model::quote_prefix;
use crate::model::cell_widths;
use crate::model::row_chunks;
use crate::model::row_pieces;
use crate::model::rule_chunks;
use crate::model::rule_margin;
use crate::model::rule_piece;
use crate::model::separator_operations;
use crate::model::slide_title_operations;
use crate::model::table_operations;
use crate::model::table_rows;
use crate::model::table_widths;
use crate::model::text_line;
use crate::model::text_or_empty;
use crate::model::vertical_padding;
use crate::model::BuilderView;
use crate::model::DEFAULT_BOTTOM_SLIDE_MARGIN;
use crate::model::CodeLineView;
use crate::model::RequestView;
use crate::model::StepView;
use crate::presentation::copy_of_operations;
use crate::presentation::Image;
use crate::presentation::MarginProperties;
use crate::presentation::PreformattedLine;
use crate::presentation::Presentation;
use crate::presentation::RenderOperation;
use crate::presentation::RenderOperationView;
use crate::presentation::Slide;
use crate::strings::joined;
use crate::strings::lines;
use crate::strings::push_decimal;
use crate::strings::push_repeated;
use crate::strings::repeated;
use crate::strings::trim_end;
use crate::style::Colors;
use crate::style::TextStyle;
use crate::text::StyledText;
use crate::text::StyledTextView;
use crate::text::Text;
use crate::text::WeightedLine;
use crate::text::WeightedText;
use crate::theme::Alignment;
use crate::theme::AuthorPositioning;
use crate::theme::ElementType;
use crate::theme::Margin;
use crate::theme::PresentationTheme;
use crate::width::width;
use crate::yaml::YamlNode;
use vstd::prelude::*;
use vstd::string::StringExecFns;

verus! {

/// A highlighted line of code.
#[derive(Clone, Debug, PartialEq, Eq)]
pub struct CodeLine {
    /// The line as the highlighter colored it.
    pub formatted: String,
    /// The line as it was.
    pub plain: String,
}

impl DeepView for CodeLine {
    type V = CodeLineView;

    open spec fn deep_view(&self) -> CodeLineView {
        CodeLineView { formatted: self.formatted@, plain: self.plain@ }
    }
}

/// What a build asks of the outside.
#[derive(Debug, PartialEq, Eq)]
pub enum BuildRequest {
    /// The built-in theme of this name.
    NamedTheme { name: String },
    /// The theme in the file at this path.
    ThemeFile { path: String },
    /// The theme `base` with the settings of `overrides` in place of its own.
    ThemeOverrides { base: PresentationTheme, overrides: YamlNode },
    /// Whether there is a highlighter theme of this name.
    CodeTheme { name: String },
    /// The lines of `code`, highlighted.
    Highlight { code: String, language: ProgrammingLanguage },
    /// The image in the file at this path.
    Image { path: String },
}

impl DeepView for BuildRequest {
    type V = RequestView;

    open spec fn deep_view(&self) -> RequestView {
        match self {
            BuildRequest::NamedTheme { name } => RequestView::NamedTheme { name: name@ },
            BuildRequest::ThemeFile { path } => RequestView::ThemeFile { path: path@ },
            BuildRequest::ThemeOverrides { base, overrides } => RequestView::ThemeOverrides {
                base: *base,
                overrides: *overrides,
            },
            BuildRequest::CodeTheme { name } => RequestView::CodeTheme { name: name@ },
            BuildRequest::Highlight { code, language } => RequestView::Highlight {
                code: code@,
                language: *language,
            },
            BuildRequest::Image { path } => RequestView::Image { path: path@ },
        }
    }
}

/// The answer to a request.
#[derive(Debug, PartialEq, Eq)]
pub enum BuildAnswer {
    /// The theme of that name, if there is one.
    NamedTheme(Option<PresentationTheme>),
    /// The theme in that file.
    ThemeFile(Result<PresentationTheme, LoadThemeError>),
    /// The theme with the overrides merged in, or why they cannot be.
    ThemeOverrides(Result<PresentationTheme, String>),
    /// Whether there is a highlighter theme of that name.
    CodeTheme(bool),
    /// The highlighted lines.
    Highlight(Vec<CodeLine>),
    /// The image in that file.
    Image(Result<Image, LoadImageError>),
}

/// How a slide is closed.
#[derive(Clone, Copy, Debug, PartialEq, Eq)]
pub enum TerminateMode {
    /// The next slide goes on where this one stood.
    KeepState,
    /// The next slide starts afresh.
    ResetState,
}

/// Builds a presentation out of the elements of a document.
pub struct PresentationBuilder {
    slide_operations: Vec<RenderOperation>,
    slides: Vec<Slide>,
    theme: PresentationTheme,
    ignore_element_line_break: bool,
    column_mark: Option<usize>,
    last_element_is_list: bool,
    layout: LayoutState,
    author: String,
    /// The elements that are still to be built, the next one last.
    remaining: Vec<MarkdownElement>,
    metadata: PresentationMetadata,
    /// The width of the widest line of the code that is being highlighted.
    code_width: usize,
}

impl View for PresentationBuilder {
    type V = BuilderView;

    closed spec fn view(&self) -> BuilderView {
        BuilderView {
            operations: self.slide_operations.deep_view(),
            slides: self.slides.deep_view(),
            theme: self.theme,
            ignore_element_line_break: self.ignore_element_line_break,
            column_mark: self.column_mark,
            last_element_is_list: self.last_element_is_list,
            layout: self.layout,
            author: self.author@,
            remaining: self.remaining@.reverse(),
            metadata: self.metadata.deep_view(),
            code_width: self.code_width,
        }
    }
}

/// The width of a line of code when displayed: that of the line as it was,
/// less the width of the white space that was trimmed from the colored line.
/// There is none where the colored line is narrower with its white space than
/// without it, or where more was trimmed than the line as it was is wide.
pub fn code_line_length(plain: usize, formatted: usize, trimmed: usize) -> (length: Option<usize>)
    ensures
        length is Some <==> 0 <= formatted - trimmed <= plain,
        length is Some ==> length.unwrap() == plain - (formatted - trimmed),
{
    if trimmed <= formatted && formatted - trimmed <= plain {
        Some(plain - (formatted - trimmed))
    } else {
        None
    }
}

/// The width of a block of code: that of its widest line plus the padding.
/// There is none where that is no `usize`.
pub fn block_length(widest: usize, padding: u8) -> (length: Option<usize>)
    ensures
        length is Some <==> widest + padding <= usize::MAX,
        length is Some ==> length.unwrap() == widest + padding,
{
    if widest <= usize::MAX - padding as usize {
        Some(widest + padding as usize)
    } else {
        None
    }
}

/// The width of the widest of `lines` when displayed.
pub fn widest(lines: &Vec<String>) -> (columns: usize)
    ensures
        columns == max_line_width(lines.deep_view()),
{
    let mut columns: usize = 0;
    let mut at: usize = 0;
    while at < lines.len()
        invariant
            at <= lines@.len(),
            columns == max_line_width(lines.deep_view().take(at as int)),
        decreases lines@.len() - at,
    {
        assert(lines.deep_view().take(at + 1).drop_last() == lines.deep_view().take(at as int));
        let line = width(lines[at].as_str());
        if line > columns {
            columns = line;
        }
        at = at + 1;
    }
    assert(lines.deep_view().take(at as int) == lines.deep_view());
    columns
}

impl PresentationBuilder {
    /// A builder that has built nothing yet, with the theme that holds where
    /// the document asks for no other.
    pub fn new(default_theme: PresentationTheme) -> (builder: PresentationBuilder)
        ensures
            builder@ == BuilderView::initial(default_theme),
    {
        let builder = PresentationBuilder {
            slide_operations: Vec::new(),
            slides: Vec::new(),
            theme: default_theme,
            ignore_element_line_break: false,
            column_mark: None,
            last_element_is_list: false,
            layout: LayoutState::Default,
            author: String::new(),
            remaining: Vec::new(),
            metadata: PresentationMetadata::none(),
            code_width: 0,
        };
        assert(builder.slide_operations.deep_view() =~= Seq::empty());
        assert(builder.slides.deep_view() =~= Seq::empty());
        assert(builder.remaining@.reverse() =~= Seq::empty());
        builder
    }

    /// Adds one instruction.
    fn push_operation(&mut self, operation: RenderOperation)
        ensures
            final(self)@ == old(self)@.push(operation.deep_view()),
    {
        let ghost before = self.slide_operations.deep_view();
        self.slide_operations.push(operation);
        assert(self.slide_operations.deep_view() == before.push(operation.deep_view()));
    }

    /// Adds a line break.
    fn push_line_break(&mut self)
        ensures
            final(self)@ == old(self)@.push_line_break(),
    {
        self.push_operation(RenderOperation::RenderLineBreak);
    }

    /// Adds `count` line breaks.
    fn push_line_breaks(&mut self, count: u8)
        ensures
            final(self)@ == old(self)@.extend(line_breaks(count as nat)),
    {
        let mut done: u8 = 0;
        while done < count
            invariant
                done <= count,
                self@ == old(self)@.extend(line_breaks(done as nat)),
            decreases count - done,
        {
            self.push_line_break();
            assert(line_breaks((done + 1) as nat) =~= line_breaks(done as nat).push(
                RenderOperationView::RenderLineBreak,
            ));
            done = done + 1;
        }
    }

    /// Adds what every slide starts with.
    fn push_slide_prelude(&mut self)
        ensures
            final(self)@ == old(self)@.push_slide_prelude(),
    {
        let colors = self.theme.default_style.colors;
        let margin = match self.theme.default_style.margin {
            Some(margin) => margin,
            None => Margin::Fixed(0),
        };
        self.push_operation(RenderOperation::SetColors(colors));
        self.push_operation(RenderOperation::ClearScreen);
        self.push_operation(
            RenderOperation::ApplyMargin(
                MarginProperties {
                    horizontal_margin: margin,
                    bottom_slide_margin: DEFAULT_BOTTOM_SLIDE_MARGIN,
                },
            ),
        );
        self.push_line_break();
    }

    /// Adds what every slide ends with.
    fn push_footer(&mut self)
        ensures
            final(self)@ == old(self)@.push_footer(),
    {
        let generator = FooterGenerator {
            current_slide: self.slides.len(),
            style: self.theme.footer.duplicate(),
        };
        // Leave any layout, so that the footer is drawn on the whole screen.
        self.push_operation(RenderOperation::ExitLayout);
        // Leave the slide's margins.
        self.push_operation(RenderOperation::PopMargin);
        // The footer stands on the last row.
        self.push_operation(RenderOperation::JumpToBottom);
        self.push_operation(RenderOperation::RenderDynamic(generator));
    }

    /// Closes the slide at hand and begins the next.
    fn terminate_slide(&mut self, mode: TerminateMode)
        ensures
            final(self)@ == old(self)@.terminate_slide(mode == TerminateMode::ResetState),
    {
        self.push_footer();
        let mut elements: Vec<RenderOperation> = Vec::new();
        core::mem::swap(&mut self.slide_operations, &mut elements);
        let ghost before = self.slides.deep_view();
        let slide = Slide { render_operations: elements };
        self.slides.push(slide);
        assert(self.slides.deep_view() == before.push(slide.deep_view()));
        assert(self.slide_operations.deep_view() =~= Seq::empty());
        self.push_slide_prelude();
        match mode {
            TerminateMode::ResetState => {
                self.ignore_element_line_break = true;
                self.column_mark = None;
                self.layout = LayoutState::Default;
            },
            TerminateMode::KeepState => {},
        }
    }

    /// A pause: the slide at hand is closed, and the next one starts with what
    /// this one showed.
    pub fn process_pause(&mut self)
        ensures
            final(self)@ == old(self)@.process_pause(),
    {
        // A line break at the end of a list is dropped, so that the items of a
        // list that is shown step by step stand below one another.
        let count = self.slide_operations.len();
        if self.last_element_is_list && count > 0 {
            let ends_in_break = match &self.slide_operations[count - 1] {
                RenderOperation::RenderLineBreak => true,
                _ => false,
            };
            if ends_in_break {
                let ghost before = self.slide_operations.deep_view();
                self.slide_operations.pop();
                assert(self.slide_operations.deep_view() =~= before.drop_last());
            }
        }
        let next_operations = copy_of_operations(&self.slide_operations);
        self.terminate_slide(TerminateMode::KeepState);
        self.slide_operations = next_operations;
    }

    /// Adds a line of text with the given alignment; a text without pieces
    /// adds nothing.
    fn push_aligned_text(&mut self, text: &Text, alignment: Alignment)
        ensures
            final(self)@ == old(self)@.extend(
                text_line(text.deep_view(), old(self)@.theme.inline_code.colors, alignment),
            ),
    {
        let colors = self.theme.inline_code.colors;
        let mut texts: Vec<WeightedText> = Vec::new();
        let mut at: usize = 0;
        while at < text.chunks.len()
            invariant
                at <= text.chunks@.len(),
                texts.deep_view() == line_texts(text.deep_view(), colors).take(at as int),
            decreases text.chunks@.len() - at,
        {
            let chunk = &text.chunks[at];
            let style = if chunk.style.is_code() {
                chunk.style.colors(colors)
            } else {
                chunk.style
            };
            let ghost before = texts.deep_view();
            let ghost wanted = line_texts(text.deep_view(), colors);
            let weighted = WeightedText::new(StyledText { text: chunk.text.clone(), style });
            assert(weighted.deep_view() == wanted[at as int]);
            texts.push(weighted);
            assert(texts.deep_view() == before.push(wanted[at as int]));
            assert(wanted.take(at + 1) == wanted.take(at as int).push(wanted[at as int]));
            at = at + 1;
        }
        assert(line_texts(text.deep_view(), colors).take(at as int) == line_texts(
            text.deep_view(),
            colors,
        ));
        if texts.len() > 0 {
            self.push_operation(RenderOperation::RenderTextLine { line: WeightedLine { texts }, alignment });
            assert(self@ =~= old(self)@.extend(text_line(text.deep_view(), colors, alignment)));
        } else {
            assert(self@ =~= old(self)@.extend(Seq::empty()));
        }
    }

    /// Adds a line of text, aligned as the theme aligns the given kind of
    /// element.
    fn push_text(&mut self, text: &Text, element_type: ElementType)
        ensures
            final(self)@ == old(self)@.extend(
                element_line(old(self)@.theme, text.deep_view(), element_type),
            ),
    {
        let alignment = self.theme.alignment(element_type);
        self.push_aligned_text(text, alignment);
    }

    /// Adds the title of a slide.
    fn push_slide_title(&mut self, text: &Text)
        ensures
            final(self)@ == (BuilderView {
                ignore_element_line_break: true,
                ..old(self)@.extend(slide_title_operations(old(self)@.theme, text.deep_view()))
            }),
    {
        let style = self.theme.slide_title;
        let styled = text.styled(&title_style(style.colors));
        let padding_top = match style.padding_top {
            Some(padding) => padding,
            None => 0,
        };
        let padding_bottom = match style.padding_bottom {
            Some(padding) => padding,
            None => 0,
        };
        self.push_line_breaks(padding_top);
        self.push_text(&styled, ElementType::SlideTitle);
        self.push_line_break();
        self.push_line_breaks(padding_bottom);
        if style.separator {
            self.push_operation(RenderOperation::RenderSeparator);
        }
        self.push_line_break();
        self.ignore_element_line_break = true;
        assert(self@ =~= (BuilderView {
            ignore_element_line_break: true,
            ..old(self)@.extend(slide_title_operations(old(self)@.theme, text.deep_view()))
        }));
    }

    /// Adds a heading of `level`.
    fn push_heading(&mut self, level: u8, text: &Text)
        requires
            1 <= level <= 6,
        ensures
            final(self)@ == old(self)@.extend(
                heading_operations(old(self)@.theme, level, text.deep_view()),
            ),
    {
        let (element_type, style) = if level == 1 {
            (ElementType::Heading1, &self.theme.headings.h1)
        } else if level == 2 {
            (ElementType::Heading2, &self.theme.headings.h2)
        } else if level == 3 {
            (ElementType::Heading3, &self.theme.headings.h3)
        } else if level == 4 {
            (ElementType::Heading4, &self.theme.headings.h4)
        } else if level == 5 {
            (ElementType::Heading5, &self.theme.headings.h5)
        } else {
            (ElementType::Heading6, &self.theme.headings.h6)
        };
        let mut chunks: Vec<StyledText> = Vec::new();
        assert(chunks.deep_view() =~= Seq::empty());
        if let Some(prefix) = &style.prefix {
            let mut prefix = prefix.clone();
            prefix.push(' ');
            chunks.push(StyledText::plain(prefix.as_str()));
            assert(chunks.deep_view() =~= seq![StyledTextView::plain(style.prefix.unwrap()@.push(' '))]);
        }
        let text_style = title_style(style.colors);
        append_chunks(&mut chunks, text);
        let styled = (Text { chunks }).styled(&text_style);
        assert(styled.deep_view() =~= heading_chunks(*style, text.deep_view()));
        self.push_text(&styled, element_type);
        self.push_line_break();
        assert(self@ =~= old(self)@.extend(
            heading_operations(old(self)@.theme, level, text.deep_view()),
        ));
    }

    /// Adds a paragraph.
    fn push_paragraph(&mut self, elements: &Vec<ParagraphElement>)
        ensures
            final(self)@ == old(self)@.extend(paragraph_operations(old(self)@.theme, elements@)),
    {
        let mut at: usize = 0;
        assert(self@ =~= old(self)@.extend(paragraph_operations(old(self)@.theme, elements@.take(0))));
        while at < elements.len()
            invariant
                at <= elements@.len(),
                self@ == old(self)@.extend(
                    paragraph_operations(old(self)@.theme, elements@.take(at as int)),
                ),
            decreases elements@.len() - at,
        {
            assert(elements@.take(at + 1).drop_last() == elements@.take(at as int));
            match &elements[at] {
                ParagraphElement::Text(text) => {
                    self.push_text(text, ElementType::Paragraph);
                    self.push_line_break();
                },
                ParagraphElement::LineBreak => {
                    // A line break already follows every text.
                },
            }
            assert(self@ =~= old(self)@.extend(
                paragraph_operations(old(self)@.theme, elements@.take(at + 1)),
            ));
            at = at + 1;
        }
        assert(elements@.take(at as int) == elements@);
    }

    /// Adds a list.
    fn push_list(&mut self, items: &Vec<ListItem>)
        ensures
            final(self)@ == old(self)@.extend(list_operations(old(self)@.theme, items@)),
    {
        let mut at: usize = 0;
        assert(self@ =~= old(self)@.extend(list_operations(old(self)@.theme, items@.take(0))));
        while at < items.len()
            invariant
                at <= items@.len(),
                self@ == old(self)@.extend(list_operations(old(self)@.theme, items@.take(at as int))),
            decreases items@.len() - at,
        {
            assert(items@.take(at + 1).drop_last() == items@.take(at as int));
            self.push_list_item(&items[at]);
            assert(self@ =~= old(self)@.extend(
                list_operations(old(self)@.theme, items@.take(at + 1)),
            ));
            at = at + 1;
        }
        assert(items@.take(at as int) == items@);
    }

    /// Adds an item of a list.
    fn push_list_item(&mut self, item: &ListItem)
        ensures
            final(self)@ == old(self)@.extend(list_item_operations(old(self)@.theme, *item)),
    {
        let padding_length = (item.depth as usize + 1) * 3;
        let mut prefix: String = repeated(' ', padding_length);
        match item.item_type {
            ListItemType::Unordered => {
                let delimiter = if item.depth == 0 {
                    '•'
                } else if item.depth == 1 {
                    '◦'
                } else {
                    '▪'
                };
                prefix.push(delimiter);
            },
            ListItemType::OrderedParens(number) => {
                push_decimal(&mut prefix, number as u128);
                prefix.push(')');
                prefix.push(' ');
            },
            ListItemType::OrderedPeriod(number) => {
                push_decimal(&mut prefix, number as u128);
                prefix.push('.');
                prefix.push(' ');
            },
        }
        assert(prefix@ =~= list_prefix(item.depth, item.item_type));
        let prefix_length = width(prefix.as_str());
        self.push_text(&Text::plain(prefix.as_str()), ElementType::List);
        self.push_aligned_text(
            &item.contents,
            Alignment::Left { margin: Margin::Fixed(prefix_length) },
        );
        self.push_line_break();
        assert(self@ =~= old(self)@.extend(list_item_operations(old(self)@.theme, *item)));
    }

    /// Adds a block quote.
    fn push_block_quote(&mut self, lines: &Vec<String>)
        ensures
            final(self)@ == old(self)@.extend(
                block_quote_operations(old(self)@.theme, lines.deep_view()),
            ),
    {
        let prefix = match &self.theme.block_quote.prefix {
            Some(prefix) => prefix.clone(),
            None => String::new(),
        };
        let ghost wanted = prefixed(quote_prefix(self@.theme), lines.deep_view());
        let mut quoted: Vec<String> = Vec::new();
        let mut at: usize = 0;
        while at < lines.len()
            invariant
                at <= lines@.len(),
                prefix@ == quote_prefix(self@.theme),
                wanted == prefixed(quote_prefix(self@.theme), lines.deep_view()),
                quoted.deep_view() == wanted.take(at as int),
            decreases lines@.len() - at,
        {
            let ghost before = quoted.deep_view();
            let line = joined(prefix.as_str(), lines[at].as_str());
            assert(line@ == wanted[at as int]);
            quoted.push(line);
            assert(quoted.deep_view() == before.push(wanted[at as int]));
            assert(wanted.take(at + 1) == wanted.take(at as int).push(wanted[at as int]));
            at = at + 1;
        }
        assert(wanted.take(at as int) == wanted);
        let block_length = widest(&quoted);
        let alignment = self.theme.alignment(ElementType::BlockQuote);
        let block_colors = self.theme.block_quote.colors;
        let default_colors = self.theme.default_style.colors;
        self.push_operation(RenderOperation::SetColors(block_colors));
        let ghost start = self@;
        let mut at: usize = 0;
        assert(self@ =~= start.extend(quote_lines(wanted.take(0), block_length, alignment)));
        while at < quoted.len()
            invariant
                at <= quoted@.len(),
                quoted.deep_view() == wanted,
                self@ == start.extend(quote_lines(wanted.take(at as int), block_length, alignment)),
            decreases quoted@.len() - at,
        {
            assert(wanted.take(at + 1).drop_last() == wanted.take(at as int));
            let line_length = width(quoted[at].as_str());
            self.push_operation(
                RenderOperation::RenderPreformattedLine(
                    PreformattedLine {
                        text: quoted[at].clone(),
                        unformatted_length: line_length,
                        block_length,
                        alignment,
                    },
                ),
            );
            self.push_line_break();
            assert(self@ =~= start.extend(quote_lines(wanted.take(at + 1), block_length, alignment)));
            at = at + 1;
        }
        assert(wanted.take(at as int) == wanted);
        self.push_operation(RenderOperation::SetColors(default_colors));
        assert(self@ =~= old(self)@.extend(
            block_quote_operations(old(self)@.theme, lines.deep_view()),
        ));
    }

    /// The lines of a block of code as they are drawn, or nothing where the
    /// widths of one of them do not fit together.
    fn prepare_code(lines: &Vec<CodeLine>, block_length: usize, alignment: Alignment) -> (prepared:
        Option<Vec<PreformattedLine>>)
        ensures
            prepared is Some <==> forall|i: int|
                0 <= i < lines@.len() ==> line_consistent(#[trigger] lines.deep_view()[i]),
            prepared is Some ==> prepared.unwrap().deep_view() == Seq::new(
                lines@.len(),
                |i: int| code_line(lines.deep_view()[i], block_length, alignment),
            ),
    {
        let mut prepared: Vec<PreformattedLine> = Vec::new();
        let mut at: usize = 0;
        while at < lines.len()
            invariant
                at <= lines@.len(),
                forall|i: int| 0 <= i < at ==> line_consistent(#[trigger] lines.deep_view()[i]),
                prepared.deep_view() == Seq::new(
                    at as nat,
                    |i: int| code_line(lines.deep_view()[i], block_length, alignment),
                ),
            decreases lines@.len() - at,
        {
            let line = &lines[at];
            let trimmed = trim_end(line.formatted.as_str());
            let length = code_line_length(
                width(line.plain.as_str()),
                width(line.formatted.as_str()),
                width(trimmed.as_str()),
            );
            let ghost before = prepared.deep_view();
            match length {
                Some(length) => {
                    let drawn = PreformattedLine {
                        text: trimmed,
                        unformatted_length: length,
                        block_length,
                        alignment,
                    };
                    assert(drawn.deep_view() == code_line(
                        lines.deep_view()[at as int],
                        block_length,
                        alignment,
                    ));
                    prepared.push(drawn);
                    assert(prepared.deep_view() == before.push(drawn.deep_view()));
                    assert(prepared.deep_view() =~= Seq::new(
                        (at + 1) as nat,
                        |i: int| code_line(lines.deep_view()[i], block_length, alignment),
                    ));
                },
                None => {
                    assert(!line_consistent(lines.deep_view()[at as int]));
                    return None;
                },
            }
            at = at + 1;
        }
        Some(prepared)
    }

    /// Adds the lines of a block of code.
    fn push_code(&mut self, prepared: &Vec<PreformattedLine>, Ghost(lines): Ghost<Seq<CodeLineView>>, block_length: usize)
        requires
            prepared.deep_view() == Seq::new(
                lines.len(),
                |i: int|
                    code_line(lines[i], block_length, old(self)@.theme.alignment_of(ElementType::Code)),
            ),
        ensures
            final(self)@ == old(self)@.extend(
                code_operations(
                    lines,
                    block_length,
                    old(self)@.theme.alignment_of(ElementType::Code),
                ),
            ),
    {
        let ghost alignment = self@.theme.alignment_of(ElementType::Code);
        let mut at: usize = 0;
        assert(prepared.deep_view().len() == prepared@.len());
        assert(self@ =~= old(self)@.extend(code_operations(lines.take(0), block_length, alignment)));
        while at < prepared.len()
            invariant
                at <= prepared@.len(),
                prepared@.len() == lines.len(),
                alignment == old(self)@.theme.alignment_of(ElementType::Code),
                prepared.deep_view() == Seq::new(
                    lines.len(),
                    |i: int| code_line(lines[i], block_length, alignment),
                ),
                self@ == old(self)@.extend(
                    code_operations(lines.take(at as int), block_length, alignment),
                ),
            decreases prepared@.len() - at,
        {
            assert(lines.take(at + 1).drop_last() == lines.take(at as int));
            let line = &prepared[at];
            assert(line.deep_view() == prepared.deep_view()[at as int]);
            self.push_operation(
                RenderOperation::RenderPreformattedLine(
                    PreformattedLine {
                        text: line.text.clone(),
                        unformatted_length: line.unformatted_length,
                        block_length: line.block_length,
                        alignment: line.alignment,
                    },
                ),
            );
            self.push_line_break();
            assert(self@ =~= old(self)@.extend(
                code_operations(lines.take(at + 1), block_length, alignment),
            ));
            at = at + 1;
        }
        assert(lines.take(at as int) == lines);
    }

    /// The width of every column of a table.
    fn column_widths(table: &Table) -> (widths: Vec<usize>)
        requires
            table.valid(),
        ensures
            widths@ == table_widths(*table),
    {
        let ghost rows = table_rows(*table);
        let columns = table.header.0.len();
        let mut widths: Vec<usize> = Vec::new();
        let mut column: usize = 0;
        while column < columns
            invariant
                column <= columns,
                columns == table.header.0@.len(),
                table.valid(),
                rows == table_rows(*table),
                widths@ == table_widths(*table).take(column as int),
            decreases columns - column,
        {
            let mut widest = table.header.0[column].width();
            assert(rows.take(1).drop_last() =~= Seq::empty());
            assert(rows.take(1).last() == table.header.deep_view());
            assert(table.header.deep_view()[column as int] == table.header.0@[column as int].deep_view());
            assert(column_width(rows.take(1).drop_last(), column as int) == 0);
            assert(column_width(rows.take(1), column as int) == widest);
            let mut row: usize = 0;
            while row < table.rows.len()
                invariant
                    row <= table.rows@.len(),
                    column < columns,
                    columns == table.header.0@.len(),
                    table.valid(),
                    rows == table_rows(*table),
                    widest == column_width(rows.take(row + 1), column as int),
                decreases table.rows@.len() - row,
            {
                assert(rows.take(row + 2).drop_last() == rows.take(row + 1));
                assert(rows.take(row + 2).last() == table.rows.deep_view()[row as int]);
                assert(table.rows.deep_view()[row as int] == table.rows@[row as int].deep_view());
                assert(table.rows@[row as int].0@.len() == columns);
                assert(table.rows@[row as int].deep_view()[column as int]
                    == table.rows@[row as int].0@[column as int].deep_view());
                let cell = table.rows[row].0[column].width();
                if cell > widest {
                    widest = cell;
                }
                row = row + 1;
            }
            assert(rows.take(row + 1) == rows);
            let ghost before = widths@;
            widths.push(widest);
            assert(widths@ =~= table_widths(*table).take(column + 1));
            column = column + 1;
        }
        assert(table_widths(*table).take(column as int) == table_widths(*table));
        widths
    }

    /// The width of every cell of a row when displayed.
    fn cell_widths(row: &TableRow) -> (measured: Vec<usize>)
        ensures
            measured@ == cell_widths(row.deep_view()),
    {
        let ghost wanted = cell_widths(row.deep_view());
        let mut measured: Vec<usize> = Vec::new();
        let mut column: usize = 0;
        while column < row.0.len()
            invariant
                column <= row.0@.len(),
                wanted == cell_widths(row.deep_view()),
                measured@ == wanted.take(column as int),
            decreases row.0@.len() - column,
        {
            assert(row.deep_view()[column as int] == row.0@[column as int].deep_view());
            measured.push(row.0[column].width());
            assert(measured@ =~= wanted.take(column + 1));
            column = column + 1;
        }
        assert(wanted.take(column as int) == wanted);
        measured
    }

    /// The pieces of a row whose cells are as wide as `cell_widths` says: the
    /// cells, each filled up to the width of its column, with a separator
    /// between them.
    pub fn flatten_table_row(row: &TableRow, cell_widths: &Vec<usize>, widths: &Vec<usize>) -> (flattened_row:
        Text)
        requires
            row.0@.len() <= widths@.len(),
            row.0@.len() <= cell_widths@.len(),
        ensures
            flattened_row.deep_view() == row_pieces(row.deep_view(), cell_widths@, widths@),
    {
        let ghost cells = row.deep_view();
        let mut chunks: Vec<StyledText> = Vec::new();
        let mut column: usize = 0;
        assert(chunks.deep_view() =~= row_pieces(cells.take(0), cell_widths@, widths@));
        while column < row.0.len()
            invariant
                column <= row.0@.len() <= widths@.len(),
                row.0@.len() <= cell_widths@.len(),
                cells == row.deep_view(),
                chunks.deep_view() == row_pieces(cells.take(column as int), cell_widths@, widths@),
            decreases row.0@.len() - column,
        {
            assert(cells.take(column + 1).drop_last() == cells.take(column as int));
            assert(cells.take(column + 1).last() == row.0@[column as int].deep_view());
            let ghost before = chunks.deep_view();
            if column > 0 {
                let mut separator = String::new();
                separator.push(' ');
                separator.push('│');
                separator.push(' ');
                assert(separator@ =~= cell_separator());
                chunks.push(StyledText::plain(separator.as_str()));
                assert(chunks.deep_view() == before.push(StyledTextView::plain(cell_separator())));
            }
            let text = &row.0[column];
            let text_length = cell_widths[column];
            append_chunks(&mut chunks, text);
            let cell_width = widths[column];
            if text_length < cell_width {
                let ghost filled = chunks.deep_view();
                let padding = repeated(' ', cell_width - text_length);
                chunks.push(StyledText::plain(padding.as_str()));
                assert(chunks.deep_view() == filled.push(StyledTextView::plain(padding@)));
            }
            assert(chunks.deep_view() =~= row_pieces(cells.take(column + 1), cell_widths@, widths@));
            column = column + 1;
        }
        assert(cells.take(column as int) == cells);
        Text { chunks }
    }

    /// The pieces of a row: the cells, each filled up to the width of its
    /// column, with a separator between them.
    fn prepare_table_row(row: &TableRow, widths: &Vec<usize>) -> (flattened_row: Text)
        requires
            row.0@.len() <= widths@.len(),
        ensures
            flattened_row.deep_view() == row_chunks(row.deep_view(), widths@),
    {
        let measured = Self::cell_widths(row);
        Self::flatten_table_row(row, &measured, widths)
    }

    /// The pieces of the rule under a table's header.
    pub fn table_rule(widths: &Vec<usize>) -> (separator: Text)
        ensures
            separator.deep_view() == rule_chunks(widths@),
    {
        let mut chunks: Vec<StyledText> = Vec::new();
        let mut index: usize = 0;
        while index < widths.len()
            invariant
                index <= widths@.len(),
                chunks.deep_view() == rule_chunks(widths@).take(index as int),
            decreases widths@.len() - index,
        {
            let mut contents = String::new();
            let mut margin: usize = 1;
            if index > 0 {
                contents.push('┼');
                // One more dash, to reach under the space on either side.
                if index < widths.len() - 1 {
                    margin = margin + 1;
                }
            }
            push_repeated(&mut contents, '─', widths[index]);
            push_repeated(&mut contents, '─', margin);
            assert(margin == rule_margin(index as int, widths@.len() as int));
            assert(contents@ =~= rule_piece(index as int, widths@.len() as int, widths@[index as int]));
            let ghost before = chunks.deep_view();
            let ghost wanted = rule_chunks(widths@);
            chunks.push(StyledText::plain(contents.as_str()));
            assert(chunks.deep_view() == before.push(wanted[index as int]));
            assert(wanted.take(index + 1) == wanted.take(index as int).push(wanted[index as int]));
            index = index + 1;
        }
        assert(rule_chunks(widths@).take(index as int) == rule_chunks(widths@));
        Text { chunks }
    }

    /// Adds a table.
    fn push_table(&mut self, table: &Table)
        requires
            table.valid(),
        ensures
            final(self)@ == old(self)@.extend(table_operations(old(self)@.theme, *table)),
    {
        let widths = Self::column_widths(table);
        let flattened_header = Self::prepare_table_row(&table.header, &widths);
        self.push_text(&flattened_header, ElementType::Table);
        self.push_line_break();

        let separator = Self::table_rule(&widths);
        self.push_text(&separator, ElementType::Table);
        self.push_line_break();

        let ghost start = self@;
        let ghost rows = table.rows.deep_view();
        let mut at: usize = 0;
        assert(self@ =~= start.extend(body_operations(start.theme, rows.take(0), widths@)));
        while at < table.rows.len()
            invariant
                at <= table.rows@.len(),
                table.valid(),
                widths@.len() == table.header.0@.len(),
                rows == table.rows.deep_view(),
                self@ == start.extend(body_operations(start.theme, rows.take(at as int), widths@)),
            decreases table.rows@.len() - at,
        {
            assert(rows.take(at + 1).drop_last() == rows.take(at as int));
            assert(rows.take(at + 1).last() == table.rows@[at as int].deep_view());
            assert(table.rows@[at as int].0@.len() == table.header.0@.len());
            let flattened_row = Self::prepare_table_row(&table.rows[at], &widths);
            self.push_text(&flattened_row, ElementType::Table);
            self.push_line_break();
            assert(self@ =~= start.extend(body_operations(start.theme, rows.take(at + 1), widths@)));
            at = at + 1;
        }
        assert(rows.take(at as int) == rows);
        assert(self@ =~= old(self)@.extend(table_operations(old(self)@.theme, *table)));
    }

    /// Adds the introduction slide, after its prelude, and closes it.
    fn push_intro_slide(&mut self)
        ensures
            final(self)@ == old(self)@.extend(
                intro_operations(old(self)@.theme, old(self)@.metadata),
            ).terminate_slide(true),
    {
        let styles = self.theme.intro_slide;
        let title = StyledText::new(
            match &self.metadata.title {
                Some(title) => title.clone(),
                None => String::new(),
            },
            title_style(styles.title.colors),
        );
        let sub_title = match &self.metadata.sub_title {
            Some(text) => Some(StyledText::new(text.clone(), colored_style(styles.subtitle.colors))),
            None => None,
        };
        let author = match &self.metadata.author {
            Some(text) => Some(StyledText::new(text.clone(), colored_style(styles.author.colors))),
            None => None,
        };
        self.push_operation(RenderOperation::JumpToVerticalCenter);
        self.push_text(&single(title), ElementType::PresentationTitle);
        self.push_line_break();
        if let Some(text) = sub_title {
            self.push_text(&single(text), ElementType::PresentationSubTitle);
            self.push_line_break();
        }
        if let Some(text) = author {
            match styles.author.positioning {
                AuthorPositioning::BelowTitle => {
                    self.push_line_breaks(3);
                },
                AuthorPositioning::PageBottom => {
                    self.push_operation(RenderOperation::JumpToBottom);
                },
            }
            self.push_text(&single(text), ElementType::PresentationAuthor);
        }
        assert(self@ =~= old(self)@.extend(
            intro_operations(old(self)@.theme, old(self)@.metadata),
        ));
        self.terminate_slide(TerminateMode::ResetState);
    }

    /// Checks the widths of a column layout: there has to be a column, and no
    /// column of width zero.
    pub fn validate_column_layout(columns: &Vec<u8>) -> (checked: Result<(), BuildError>)
        ensures
            match checked {
                Ok(_) => layout_problem(columns@) is None,
                Err(error) => layout_problem(columns@) is Some && error.deep_view()
                    == BuildErrorView::InvalidLayout(layout_problem(columns@).unwrap()),
            },
    {
        if columns.len() == 0 {
            return Err(BuildError::InvalidLayout("need at least one column"));
        }
        let mut at: usize = 0;
        while at < columns.len()
            invariant
                at <= columns@.len(),
                forall|i: int| 0 <= i < at ==> columns@[i] != 0,
            decreases columns@.len() - at,
        {
            if columns[at] == 0 {
                return Err(BuildError::InvalidLayout("can't have zero sized columns"));
            }
            at = at + 1;
        }
        Ok(())
    }

    /// Takes a comment in: a comment of one line is a command.
    pub fn process_comment(&mut self, comment: &str) -> (processed: Result<(), BuildError>)
        ensures
            match processed {
                Ok(_) => old(self)@.process_comment(comment@) == Ok::<BuilderView, BuildErrorView>(
                    final(self)@,
                ),
                Err(error) => old(self)@.process_comment(comment@) == Err::<
                    BuilderView,
                    BuildErrorView,
                >(error.deep_view()),
            },
            processed is Err ==> final(self)@ == old(self)@,
    {
        // A comment of several lines is a note of the author's.
        if crate::strings::contains_char(comment, '\n') {
            return Ok(());
        }
        let command = match CommentCommand::from_str(comment) {
            Ok(command) => command,
            Err(error) => {
                return Err(BuildError::CommandParse(error));
            },
        };
        match command {
            CommentCommand::Pause => {
                self.process_pause();
            },
            CommentCommand::EndSlide => {
                self.terminate_slide(TerminateMode::ResetState);
            },
            CommentCommand::InitColumnLayout(columns) => {
                match Self::validate_column_layout(&columns) {
                    Ok(_) => {},
                    Err(error) => {
                        return Err(error);
                    },
                }
                self.layout = LayoutState::InLayout { columns_count: columns.len() };
                self.push_operation(RenderOperation::InitColumnLayout { columns });
                self.column_mark = Some(self.slide_operations.len());
                assert(self.slide_operations.deep_view().len() == self.slide_operations@.len());
            },
            CommentCommand::ResetLayout => {
                self.layout = LayoutState::Default;
                self.push_operation(RenderOperation::ExitLayout);
                self.push_line_break();
                assert(self@ =~= (BuilderView {
                    layout: LayoutState::Default,
                    ..old(self)@.extend(
                        seq![RenderOperationView::ExitLayout, RenderOperationView::RenderLineBreak],
                    )
                }));
            },
            CommentCommand::Column(column) => {
                match self.layout.enter_column(column) {
                    Ok(layout) => {
                        self.layout = layout;
                    },
                    Err(error) => {
                        return Err(error);
                    },
                }
                self.push_operation(RenderOperation::EnterColumn { column });
            },
        }
        // No comment is followed by a line break.
        self.ignore_element_line_break = true;
        Ok(())
    }

    /// Checks the instruction that follows a column layout.
    fn validate_last_operation(&mut self) -> (checked: Result<(), BuildError>)
        ensures
            match checked {
                Ok(_) => old(self)@.validate_last_operation() == Ok::<BuilderView, BuildErrorView>(
                    final(self)@,
                ),
                Err(error) => old(self)@.validate_last_operation() == Err::<
                    BuilderView,
                    BuildErrorView,
                >(error.deep_view()),
            },
            checked is Err ==> final(self)@ == old(self)@,
    {
        let mark = match self.column_mark {
            Some(mark) => mark,
            None => {
                return Ok(());
            },
        };
        assert(self.slide_operations.deep_view().len() == self.slide_operations@.len());
        if self.slide_operations.len() <= mark {
            return Ok(());
        }
        assert(self.slide_operations.deep_view()[mark as int]
            == self.slide_operations@[mark as int].deep_view());
        let valid = match &self.slide_operations[mark] {
            RenderOperation::EnterColumn { .. } => true,
            RenderOperation::ExitLayout => true,
            _ => false,
        };
        if valid {
            self.column_mark = None;
            Ok(())
        } else {
            Err(BuildError::NotInsideColumn)
        }
    }

    /// Takes in an element that needs nothing from the outside.
    fn process_element(&mut self, element: MarkdownElement) -> (processed: Result<(), BuildError>)
        requires
            element.valid(),
            !(element is Code),
            !(element is Image),
        ensures
            match processed {
                Ok(_) => old(self)@.process_element(element) == Ok::<BuilderView, BuildErrorView>(
                    final(self)@,
                ),
                Err(error) => old(self)@.process_element(element) == Err::<
                    BuilderView,
                    BuildErrorView,
                >(error.deep_view()),
            },
            processed is Ok ==> final(self)@.remaining == old(self)@.remaining,
            processed is Err ==> final(self)@ == old(self)@,
    {
        reveal(BuilderView::process_element);
        match element {
            // The front matter was read before anything else: it says how the
            // other elements are drawn.
            MarkdownElement::FrontMatter(_) => {
                self.ignore_element_line_break = true;
            },
            MarkdownElement::SetexHeading { text } => {
                self.push_slide_title(&text);
            },
            MarkdownElement::Heading { level, text } => {
                self.push_heading(level, &text);
            },
            MarkdownElement::Paragraph(elements) => {
                self.push_paragraph(&elements);
            },
            MarkdownElement::List(elements) => {
                self.push_list(&elements);
            },
            MarkdownElement::Table(table) => {
                self.push_table(&table);
            },
            MarkdownElement::ThematicBreak => {
                self.push_separator();
            },
            MarkdownElement::Comment(comment) => {
                return self.process_comment(comment.as_str());
            },
            MarkdownElement::BlockQuote(lines) => {
                self.push_block_quote(&lines);
            },
            MarkdownElement::Code(_) => {},
            MarkdownElement::Image(_) => {},
        }
        Ok(())
    }

    /// What follows every element.
    fn settle(&mut self, is_list: bool) -> (settled: Result<(), BuildError>)
        ensures
            match settled {
                Ok(_) => old(self)@.settle(is_list) == Ok::<BuilderView, BuildErrorView>(
                    final(self)@,
                ),
                Err(error) => old(self)@.settle(is_list) == Err::<BuilderView, BuildErrorView>(
                    error.deep_view(),
                ),
            },
            settled is Ok ==> final(self)@.remaining == old(self)@.remaining,
            settled is Err ==> final(self)@ == old(self)@,
    {
        reveal(BuilderView::settle);
        match self.validate_last_operation() {
            Ok(_) => {},
            Err(error) => {
                return Err(error);
            },
        }
        self.last_element_is_list = is_list;
        if !self.ignore_element_line_break {
            self.push_line_break();
        }
        Ok(())
    }

    /// The code that is handed to the highlighter.
    fn padded(&self, contents: String) -> (code: String)
        ensures
            code@ == padded_code(
                contents@,
                horizontal_padding(self@.theme),
                vertical_padding(self@.theme),
            ),
    {
        let horizontal_padding = match self.theme.code.padding.horizontal {
            Some(padding) => padding,
            None => 0,
        };
        let vertical_padding = match self.theme.code.padding.vertical {
            Some(padding) => padding,
            None => 0,
        };
        if horizontal_padding == 0 && vertical_padding == 0 {
            return contents;
        }
        let mut code = String::new();
        if vertical_padding > 0 {
            code.push('\n');
        }
        let ghost above = code@;
        if horizontal_padding > 0 {
            let found = lines(contents.as_str());
            let mut at: usize = 0;
            assert(code@ =~= above + padded_lines(found.deep_view().take(0), horizontal_padding));
            while at < found.len()
                invariant
                    at <= found@.len(),
                    code@ == above + padded_lines(
                        found.deep_view().take(at as int),
                        horizontal_padding,
                    ),
                decreases found@.len() - at,
            {
                assert(found.deep_view().take(at + 1).drop_last() == found.deep_view().take(
                    at as int,
                ));
                push_repeated(&mut code, ' ', horizontal_padding as usize);
                code.append(found[at].as_str());
                code.push('\n');
                assert(code@ =~= above + padded_lines(
                    found.deep_view().take(at + 1),
                    horizontal_padding,
                ));
                at = at + 1;
            }
            assert(found.deep_view().take(at as int) == found.deep_view());
        } else {
            code.append(contents.as_str());
        }
        if vertical_padding > 0 {
            code.push('\n');
        }
        assert(code@ =~= padded_code(contents@, horizontal_padding, vertical_padding));
        code
    }

    /// Adds a thematic break.
    fn push_separator(&mut self)
        ensures
            final(self)@ == old(self)@.extend(separator_operations()),
    {
        self.push_operation(RenderOperation::RenderSeparator);
        self.push_line_break();
        assert(self@ =~= old(self)@.extend(separator_operations()));
    }

    /// Adds an image.
    fn push_image(&mut self, image: Image)
        ensures
            final(self)@ == old(self)@.push_image(image),
    {
        self.push_operation(RenderOperation::RenderImage(image));
    }
}

/// A build that waits for the answer to a request.
pub struct PendingBuild {
    builder: PresentationBuilder,
    request: BuildRequest,
}

impl PendingBuild {
    /// The state in which the build waits.
    pub closed spec fn state(&self) -> BuilderView {
        self.builder@
    }

    /// What the build asks for.
    pub closed spec fn asked(&self) -> RequestView {
        self.request.deep_view()
    }

    /// The state in which the build waits is well formed, and the request
    /// fits it.
    pub open spec fn wf(&self) -> bool {
        self.state().wf() && self.asked().fits(self.state())
    }

    /// What the build asks for.
    pub fn request(&self) -> (request: &BuildRequest)
        ensures
            request.deep_view() == self.asked(),
    {
        &self.request
    }

    /// Goes on with the answer to the request. An answer to another request is
    /// rejected, and so are highlighted lines whose widths do not fit
    /// together: the build then waits as before.
    pub fn resume(self, answer: BuildAnswer) -> (step: BuildStep)
        requires
            self.wf(),
        ensures
            step@ == self.state().resume(self.asked(), answer),
            step@.wf(),
            self.state().keeps_colors() && no_block_quotes(self.state().remaining)
                ==> step@.keeps_colors() && step@.no_block_quotes(),
            self.state().leads() && self.state().opens_after(self.asked(), answer)
                ==> step@.leads(),
    {
        proof {
            lemma_resume(self.state(), self.asked(), answer);
            if self.state().leads() && self.state().opens_after(self.asked(), answer) {
                lemma_resume_leads(self.state(), self.asked(), answer);
            }
        }
        let PendingBuild { builder, request } = self;
        let mut builder = builder;
        match (request, answer) {
            (BuildRequest::NamedTheme { name }, BuildAnswer::NamedTheme(found)) => match found {
                Some(theme) => {
                    builder.theme = theme;
                    builder.theme_file_stage()
                },
                None => {
                    let mut message = String::from_str("theme '");
                    message.append(name.as_str());
                    message.append("' does not exist");
                    BuildStep::Failed(
                        BuildError::InvalidMetadata(
                            MetadataError { problem: MetadataProblem::UnknownTheme, message },
                        ),
                    )
                },
            },
            (BuildRequest::ThemeFile { path }, BuildAnswer::ThemeFile(loaded)) => match loaded {
                Ok(theme) => {
                    builder.theme = theme;
                    builder.overrides_stage()
                },
                Err(error) => BuildStep::Failed(BuildError::InvalidTheme(error)),
            },
            (
                BuildRequest::ThemeOverrides { base, overrides },
                BuildAnswer::ThemeOverrides(merged),
            ) => match merged {
                Ok(theme) => {
                    builder.theme = theme;
                    builder.intro_stage()
                },
                Err(reason) => BuildStep::Failed(
                    BuildError::InvalidMetadata(
                        MetadataError {
                            problem: MetadataProblem::InvalidOverrides,
                            message: joined("invalid theme: ", reason.as_str()),
                        },
                    ),
                ),
            },
            (BuildRequest::CodeTheme { name }, BuildAnswer::CodeTheme(known)) => {
                if known {
                    builder.slides_stage()
                } else {
                    BuildStep::Failed(BuildError::InvalidCodeTheme)
                }
            },
            (BuildRequest::Highlight { code, language }, BuildAnswer::Highlight(lines)) => {
                builder.highlighted(code, language, lines)
            },
            (BuildRequest::Image { path }, BuildAnswer::Image(loaded)) => match loaded {
                Ok(image) => {
                    builder.push_image(image);
                    builder.proceed(false)
                },
                Err(error) => BuildStep::Failed(BuildError::LoadImage(error)),
            },
            (request, _) => BuildStep::Rejected(PendingBuild { builder, request }),
        }
    }
}

/// Where a build stands after a step.
pub enum BuildStep {
    /// The build waits for the answer to a request.
    Pending(PendingBuild),
    /// The answer that was given cannot be used; the build waits as before.
    Rejected(PendingBuild),
    /// The build is done.
    Finished(Presentation),
    /// The build failed.
    Failed(BuildError),
}

impl View for BuildStep {
    type V = StepView;

    open spec fn view(&self) -> StepView {
        match self {
            BuildStep::Pending(pending) => StepView::Pending(pending.state(), pending.asked()),
            BuildStep::Rejected(pending) => StepView::Rejected(pending.state(), pending.asked()),
            BuildStep::Finished(presentation) => StepView::Finished(presentation@),
            BuildStep::Failed(error) => StepView::Failed(error.deep_view()),
        }
    }
}

/// The elements of `elements` in the opposite order.
fn reversed(elements: Vec<MarkdownElement>) -> (turned: Vec<MarkdownElement>)
    ensures
        turned@ == elements@.reverse(),
{
    let mut elements = elements;
    let ghost all = elements@;
    let mut turned: Vec<MarkdownElement> = Vec::new();
    while elements.len() > 0
        invariant
            elements@.len() <= all.len(),
            elements@ == all.take(elements@.len() as int),
            turned@ == all.skip(elements@.len() as int).reverse(),
        decreases elements@.len(),
    {
        let ghost count = elements@.len() as int;
        let element = elements.pop();
        turned.push(element.unwrap());
        assert(turned@ =~= all.skip(count - 1).reverse());
    }
    assert(all.skip(0) == all);
    turned
}

impl PresentationBuilder {
    /// The end of the build.
    fn finish(self) -> (step: BuildStep)
        ensures
            step@ == self@.finish(),
    {
        let mut builder = self;
        builder.terminate_slide(TerminateMode::ResetState);
        let PresentationBuilder { slides, author, .. } = builder;
        assert(slides.deep_view().len() == slides@.len());
        BuildStep::Finished(Presentation::new(slides, author))
    }

    /// The build from the first of the remaining elements on.
    fn run(self) -> (step: BuildStep)
        requires
            all_valid(self@.remaining),
        ensures
            step@ == self@.run(),
    {
        let mut builder = self;
        loop
            invariant
                all_valid(builder@.remaining),
                builder@.run() == self@.run(),
            decreases builder.remaining@.len(),
        {
            let ghost before = builder@;
            let ghost stack = builder.remaining@;
            let element = match builder.remaining.pop() {
                Some(element) => element,
                None => {
                    assert(before.remaining.len() == 0);
                    return builder.finish();
                },
            };
            builder.ignore_element_line_break = false;
            proof {
                assert(stack.reverse()[0] == element);
                assert(builder.remaining@.reverse() =~= stack.reverse().drop_first());
                assert(before.remaining[0].valid());
            }
            let ghost next = builder@;
            match element {
                MarkdownElement::Code(code) => {
                    // The block is as wide as the code itself, measured before
                    // any padding is put in.
                    let code_lines = lines(code.contents.as_str());
                    let code_text = builder.padded(code.contents);
                    builder.code_width = widest(&code_lines);
                    return BuildStep::Pending(
                        PendingBuild {
                            builder,
                            request: BuildRequest::Highlight {
                                code: code_text,
                                language: code.language,
                            },
                        },
                    );
                },
                MarkdownElement::Image(path) => {
                    return BuildStep::Pending(
                        PendingBuild { builder, request: BuildRequest::Image { path } },
                    );
                },
                other => {
                    let is_list = match &other {
                        MarkdownElement::List(_) => true,
                        _ => false,
                    };
                    match builder.process_element(other) {
                        Ok(_) => {},
                        Err(error) => {
                            return BuildStep::Failed(error);
                        },
                    }
                    let ghost processed = builder@;
                    assert(processed.remaining == next.remaining);
                    assert(processed =~= (BuilderView { remaining: next.remaining, ..processed }));
                    match builder.settle(is_list) {
                        Ok(_) => {},
                        Err(error) => {
                            return BuildStep::Failed(error);
                        },
                    }
                    let ghost settled = builder@;
                    assert(settled.remaining == next.remaining);
                    assert(settled =~= (BuilderView { remaining: next.remaining, ..settled }));
                },
            }
        }
    }

    /// The build after an element was turned into instructions.
    fn proceed(self, is_list: bool) -> (step: BuildStep)
        requires
            all_valid(self@.remaining),
        ensures
            step@ == self@.proceed(is_list),
    {
        let mut builder = self;
        match builder.settle(is_list) {
            Ok(_) => {},
            Err(error) => {
                return BuildStep::Failed(error);
            },
        }
        let ghost settled = builder@;
        assert(settled.remaining == self@.remaining);
        assert(settled =~= (BuilderView { remaining: self@.remaining, ..settled }));
        builder.run()
    }

    /// The build after the lines of a block of code came back. The block is as
    /// wide as the widest line of the code, without padding, plus the
    /// horizontal padding.
    fn highlighted(self, code: String, language: ProgrammingLanguage, lines: Vec<CodeLine>) -> (step:
        BuildStep)
        requires
            all_valid(self@.remaining),
        ensures
            step@ == self@.resume(RequestView::Highlight { code: code@, language }, BuildAnswer::Highlight(lines)),
    {
        let mut builder = self;
        let horizontal_padding = match builder.theme.code.padding.horizontal {
            Some(padding) => padding,
            None => 0,
        };
        let alignment = builder.theme.alignment(ElementType::Code);
        let length = block_length(builder.code_width, horizontal_padding);
        let prepared = match length {
            Some(length) => match Self::prepare_code(&lines, length, alignment) {
                Some(prepared) => Some((prepared, length)),
                None => None,
            },
            None => None,
        };
        match prepared {
            Some((prepared, length)) => {
                builder.push_code(&prepared, Ghost(lines.deep_view()), length);
                builder.proceed(false)
            },
            None => BuildStep::Rejected(
                PendingBuild { builder, request: BuildRequest::Highlight { code, language } },
            ),
        }
    }

    /// The build of the slides.
    fn slides_stage(self) -> (step: BuildStep)
        requires
            all_valid(self@.remaining),
        ensures
            step@ == self@.slides_stage(),
    {
        let mut builder = self;
        assert(builder.slide_operations.deep_view().len() == builder.slide_operations@.len());
        if builder.slide_operations.len() == 0 {
            builder.push_slide_prelude();
        }
        builder.run()
    }

    /// The highlighter's theme.
    fn set_code_theme(self) -> (step: BuildStep)
        requires
            all_valid(self@.remaining),
        ensures
            step@ == self@.code_theme_stage(),
    {
        let name = match &self.theme.code.theme_name {
            Some(name) => Some(name.clone()),
            None => None,
        };
        match name {
            Some(name) => BuildStep::Pending(
                PendingBuild { builder: self, request: BuildRequest::CodeTheme { name } },
            ),
            None => self.slides_stage(),
        }
    }

    /// The introduction slide.
    fn intro_stage(self) -> (step: BuildStep)
        requires
            all_valid(self@.remaining),
        ensures
            step@ == self@.intro_stage(),
    {
        let mut builder = self;
        if builder.metadata.title.is_some() || builder.metadata.sub_title.is_some()
            || builder.metadata.author.is_some() {
            builder.push_slide_prelude();
            builder.push_intro_slide();
        }
        builder.set_code_theme()
    }

    /// The theme's overrides.
    fn overrides_stage(self) -> (step: BuildStep)
        requires
            all_valid(self@.remaining),
        ensures
            step@ == self@.overrides_stage(),
    {
        let mut builder = self;
        match builder.metadata.theme.overrides.take() {
            Some(overrides) => {
                let base = builder.theme.duplicate();
                BuildStep::Pending(
                    PendingBuild {
                        builder,
                        request: BuildRequest::ThemeOverrides { base, overrides },
                    },
                )
            },
            None => {
                assert(builder@ =~= self@);
                builder.intro_stage()
            },
        }
    }

    /// The theme's file.
    fn theme_file_stage(self) -> (step: BuildStep)
        requires
            all_valid(self@.remaining),
        ensures
            step@ == self@.theme_file_stage(),
    {
        let path = match &self.metadata.theme.path {
            Some(path) => Some(path.clone()),
            None => None,
        };
        match path {
            Some(path) => BuildStep::Pending(
                PendingBuild { builder: self, request: BuildRequest::ThemeFile { path } },
            ),
            None => self.overrides_stage(),
        }
    }

    /// The theme that the document asks for.
    fn set_theme(self) -> (step: BuildStep)
        requires
            all_valid(self@.remaining),
        ensures
            step@ == self@.theme_name_stage(),
    {
        if self.metadata.theme.name.is_some() && self.metadata.theme.path.is_some() {
            return BuildStep::Failed(
                BuildError::InvalidMetadata(
                    MetadataError {
                        problem: MetadataProblem::ThemeNameAndPath,
                        message: String::from_str("cannot have both theme path and theme name"),
                    },
                ),
            );
        }
        let name = match &self.metadata.theme.name {
            Some(name) => Some(name.clone()),
            None => None,
        };
        match name {
            Some(name) => BuildStep::Pending(
                PendingBuild { builder: self, request: BuildRequest::NamedTheme { name } },
            ),
            None => self.theme_file_stage(),
        }
    }

    /// Reads the front matter: it gives the author, the theme and the
    /// introduction slide.
    fn process_front_matter(self, contents: &str) -> (step: BuildStep)
        requires
            all_valid(self@.remaining),
        ensures
            step@ == match crate::metadata::metadata_of(contents@) {
                Err(problem) => StepView::Failed(BuildErrorView::InvalidMetadata(problem)),
                Ok(metadata) => (BuilderView {
                    author: text_or_empty(metadata.author),
                    metadata,
                    ..self@
                }).theme_name_stage(),
            },
    {
        let mut builder = self;
        let metadata = match PresentationMetadata::parse(contents) {
            Ok(metadata) => metadata,
            Err(error) => {
                return BuildStep::Failed(BuildError::InvalidMetadata(error));
            },
        };
        builder.author = match &metadata.author {
            Some(author) => author.clone(),
            None => String::new(),
        };
        builder.metadata = metadata;
        builder.set_theme()
    }

    /// Builds the presentation of a document out of its elements, up to the
    /// first request that only the outside can answer.
    pub fn build(self, elements: Vec<MarkdownElement>) -> (step: BuildStep)
        requires
            self@.fresh(),
            all_valid(elements@),
        ensures
            step@ == self@.start(elements@),
            step@.wf(),
            no_block_quotes(elements@) ==> step@.keeps_colors() && step@.no_block_quotes(),
            open_in_turn(self@.theme, false, elements@) ==> step@.leads(),
    {
        proof {
            lemma_start(self@, elements@);
            if open_in_turn(self@.theme, false, elements@) {
                lemma_start_leads(self@, elements@);
            }
        }
        let mut builder = self;
        let front_matter = if elements.len() > 0 {
            match &elements[0] {
                MarkdownElement::FrontMatter(contents) => Some(contents.clone()),
                _ => None,
            }
        } else {
            None
        };
        builder.remaining = reversed(elements);
        assert(builder.remaining@.reverse() =~= elements@);
        match front_matter {
            Some(contents) => builder.process_front_matter(contents.as_str()),
            None => builder.set_code_theme(),
        }
    }
}

/// The plain style in bold with the given colors.
fn title_style(colors: Colors) -> (style: TextStyle)
    ensures
        style == TextStyle::title(colors),
{
    TextStyle { bold: true, italics: false, strikethrough: false, code: false, colors }
}

/// The plain style with the given colors.
fn colored_style(colors: Colors) -> (style: TextStyle)
    ensures
        style == TextStyle::colored(colors),
{
    TextStyle { bold: false, italics: false, strikethrough: false, code: false, colors }
}

/// A line of one piece.
fn single(text: StyledText) -> (line: Text)
    ensures
        line.deep_view() == seq![text.deep_view()],
{
    let mut chunks: Vec<StyledText> = Vec::new();
    chunks.push(text);
    assert(chunks.deep_view() =~= seq![text.deep_view()]);
    Text { chunks }
}

/// Adds copies of the pieces of `text` to `chunks`.
fn append_chunks(chunks: &mut Vec<StyledText>, text: &Text)
    ensures
        final(chunks).deep_view() == old(chunks).deep_view() + text.deep_view(),
{
    let mut at: usize = 0;
    assert(chunks.deep_view() =~= old(chunks).deep_view() + text.deep_view().take(0));
    while at < text.chunks.len()
        invariant
            at <= text.chunks@.len(),
            chunks.deep_view() == old(chunks).deep_view() + text.deep_view().take(at as int),
        decreases text.chunks@.len() - at,
    {
        let chunk = &text.chunks[at];
        let ghost before = chunks.deep_view();
        let copy = StyledText { text: chunk.text.clone(), style: chunk.style };
        assert(copy.deep_view() == text.deep_view()[at as int]);
        chunks.push(copy);
        assert(chunks.deep_view() == before.push(text.deep_view()[at as int]));
        assert(text.deep_view().take(at + 1) == text.deep_view().take(at as int).push(
            text.deep_view()[at as int],
        ));
        at = at + 1;
    }
    assert(text.deep_view().take(at as int) == text.deep_view());
}

} // verus!
