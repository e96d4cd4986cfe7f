//! What a build computes, stated over sequences of instructions: first the
//! instructions that each kind of element stands for, then the builder's state
//! and the steps that take it from the elements of a document to a
//! presentation.
use crate::builder::BuildAnswer;
use crate::command::command_of;
use crate::command::CommentCommandView;
use crate::elements::all_valid;
use crate::elements::ListItem;
use crate::elements::ListItemType;
use crate::elements::MarkdownElement;
use crate::elements::ParagraphElement;
use crate::elements::ProgrammingLanguage;
use crate::elements::Table;
use crate::error::BuildErrorView;
use crate::error::MetadataProblem;
use crate::footer::FooterGeneratorView;
use crate::layout::layout_problem;
use crate::layout::LayoutState;
use crate::metadata::metadata_of;
use crate::metadata::MetadataView;
use crate::metadata::ThemeMetadataView;
use crate::presentation::Image;
use crate::presentation::MarginProperties;
use crate::presentation::PreformattedLineView;
use crate::presentation::PresentationView;
use crate::presentation::RenderOperationView;
use crate::strings::decimal;
use crate::strings::lines_of;
use crate::strings::repeat_char;
use crate::strings::trim_end_of;
use crate::style::Colors;
use crate::style::TextStyle;
use crate::text::content_of;
use crate::text::weighed;
use crate::text::with_style;
use crate::text::StyledTextView;
use crate::text::WeightedTextView;
use crate::theme::Alignment;
use crate::theme::AuthorPositioning;
use crate::theme::ElementType;
use crate::theme::HeadingStyle;
use crate::theme::Margin;
use crate::theme::PresentationTheme;
use crate::width::display_width;
use crate::yaml::YamlNode;
use vstd::prelude::*;

verus! {

/// The rows left free at the bottom of every slide.
pub const DEFAULT_BOTTOM_SLIDE_MARGIN: u16 = 3;

/// `count` line breaks.
pub open spec fn line_breaks(count: nat) -> Seq<RenderOperationView> {
    Seq::new(count, |i: int| RenderOperationView::RenderLineBreak)
}

/// What every slide starts with: the default colors, a clear screen, the
/// slide's margins and one line break.
pub open spec fn prelude(theme: PresentationTheme) -> Seq<RenderOperationView> {
    seq![
        RenderOperationView::SetColors(theme.default_style.colors),
        RenderOperationView::ClearScreen,
        RenderOperationView::ApplyMargin(
            MarginProperties {
                horizontal_margin: match theme.default_style.margin {
                    Some(margin) => margin,
                    None => Margin::Fixed(0),
                },
                bottom_slide_margin: DEFAULT_BOTTOM_SLIDE_MARGIN,
            },
        ),
        RenderOperationView::RenderLineBreak,
    ]
}

/// What every slide ends with: the layout and the margins are left, and the
/// footer of the slide `index` is drawn on the last row.
pub open spec fn footer(theme: PresentationTheme, index: usize) -> Seq<RenderOperationView> {
    seq![
        RenderOperationView::ExitLayout,
        RenderOperationView::PopMargin,
        RenderOperationView::JumpToBottom,
        RenderOperationView::RenderDynamic(
            FooterGeneratorView { current_slide: index, style: theme.footer.deep_view() },
        ),
    ]
}

/// A piece of text as it is drawn: inline code takes the theme's colors for it.
pub open spec fn recolored(chunk: StyledTextView, inline_code: Colors) -> StyledTextView {
    if chunk.style.code {
        StyledTextView { text: chunk.text, style: TextStyle { colors: inline_code, ..chunk.style } }
    } else {
        chunk
    }
}

/// The pieces of a line as they are drawn, each with its width.
pub open spec fn line_texts(chunks: Seq<StyledTextView>, inline_code: Colors) -> Seq<WeightedTextView> {
    Seq::new(chunks.len(), |i: int| weighed(recolored(chunks[i], inline_code)))
}

/// The instruction that draws a line of text; a line without pieces has none.
pub open spec fn text_line(
    chunks: Seq<StyledTextView>,
    inline_code: Colors,
    alignment: Alignment,
) -> Seq<RenderOperationView> {
    if chunks.len() == 0 {
        Seq::empty()
    } else {
        seq![
            RenderOperationView::RenderTextLine { line: line_texts(chunks, inline_code), alignment },
        ]
    }
}

/// A line of text of the given kind of element.
pub open spec fn element_line(
    theme: PresentationTheme,
    chunks: Seq<StyledTextView>,
    element: ElementType,
) -> Seq<RenderOperationView> {
    text_line(chunks, theme.inline_code.colors, theme.alignment_of(element))
}

/// The pieces of a heading: the theme's prefix and a space in front, where
/// the theme has one, and everything in bold and in the heading's colors.
pub open spec fn heading_chunks(style: HeadingStyle, text: Seq<StyledTextView>) -> Seq<
    StyledTextView,
> {
    let prefixed = match style.prefix {
        Some(prefix) => seq![StyledTextView::plain(prefix@.push(' '))] + text,
        None => text,
    };
    with_style(prefixed, TextStyle::title(style.colors))
}

/// A heading of `level`: its line and a line break.
pub open spec fn heading_operations(
    theme: PresentationTheme,
    level: u8,
    text: Seq<StyledTextView>,
) -> Seq<RenderOperationView> {
    element_line(
        theme,
        heading_chunks(theme.heading_style(level), text),
        PresentationTheme::heading_type(level),
    ).push(RenderOperationView::RenderLineBreak)
}

/// The number of line breaks that an optional padding stands for.
pub open spec fn padding_of(padding: Option<u8>) -> nat {
    match padding {
        Some(padding) => padding as nat,
        None => 0,
    }
}

/// The title of a slide: the padding above, the title in bold and in its
/// colors, a line break, the padding below, the rule where the theme asks for
/// one, and a line break.
pub open spec fn slide_title_operations(theme: PresentationTheme, text: Seq<StyledTextView>) -> Seq<
    RenderOperationView,
> {
    let style = theme.slide_title;
    line_breaks(padding_of(style.padding_top)) + element_line(
        theme,
        with_style(text, TextStyle::title(style.colors)),
        ElementType::SlideTitle,
    ).push(RenderOperationView::RenderLineBreak) + line_breaks(padding_of(style.padding_bottom)) + (
    if style.separator {
        seq![RenderOperationView::RenderSeparator]
    } else {
        Seq::empty()
    }).push(RenderOperationView::RenderLineBreak)
}

/// One part of a paragraph: a text is a line and a line break; a line break
/// of its own adds nothing, since every text is followed by one.
pub open spec fn paragraph_part(theme: PresentationTheme, element: ParagraphElement) -> Seq<
    RenderOperationView,
> {
    match element {
        ParagraphElement::Text(text) => element_line(
            theme,
            text.deep_view(),
            ElementType::Paragraph,
        ).push(RenderOperationView::RenderLineBreak),
        ParagraphElement::LineBreak => Seq::empty(),
    }
}

/// A paragraph, part by part.
pub open spec fn paragraph_operations(
    theme: PresentationTheme,
    elements: Seq<ParagraphElement>,
) -> Seq<RenderOperationView>
    decreases elements.len(),
{
    if elements.len() == 0 {
        Seq::empty()
    } else {
        paragraph_operations(theme, elements.drop_last()) + paragraph_part(theme, elements.last())
    }
}

/// The bullet of an unordered item at `depth`.
pub open spec fn bullet(depth: u8) -> char {
    if depth == 0 {
        '•'
    } else if depth == 1 {
        '◦'
    } else {
        '▪'
    }
}

/// What stands in front of a list item: three spaces for each level down to
/// the item's own, then its bullet, or its number with `) ` or `. `.
pub open spec fn list_prefix(depth: u8, item_type: ListItemType) -> Seq<char> {
    repeat_char(' ', (3 * (depth + 1)) as nat) + match item_type {
        ListItemType::Unordered => seq![bullet(depth)],
        ListItemType::OrderedParens(number) => decimal(number as nat) + seq![')', ' '],
        ListItemType::OrderedPeriod(number) => decimal(number as nat) + seq!['.', ' '],
    }
}

/// A list item: its prefix, then its text at the left with a margin as wide as
/// the prefix is when displayed, and a line break.
pub open spec fn list_item_operations(theme: PresentationTheme, item: ListItem) -> Seq<
    RenderOperationView,
> {
    let prefix = list_prefix(item.depth, item.item_type);
    (element_line(theme, seq![StyledTextView::plain(prefix)], ElementType::List) + text_line(
        item.contents.deep_view(),
        theme.inline_code.colors,
        Alignment::Left { margin: Margin::Fixed(display_width(prefix)) },
    )).push(RenderOperationView::RenderLineBreak)
}

/// A list, item by item.
pub open spec fn list_operations(theme: PresentationTheme, items: Seq<ListItem>) -> Seq<
    RenderOperationView,
>
    decreases items.len(),
{
    if items.len() == 0 {
        Seq::empty()
    } else {
        list_operations(theme, items.drop_last()) + list_item_operations(theme, items.last())
    }
}

/// The theme's prefix for the lines of a block quote.
pub open spec fn quote_prefix(theme: PresentationTheme) -> Seq<char> {
    match theme.block_quote.prefix {
        Some(prefix) => prefix@,
        None => Seq::empty(),
    }
}

/// The width of the widest of `lines` when displayed.
pub open spec fn max_line_width(lines: Seq<Seq<char>>) -> usize
    decreases lines.len(),
{
    if lines.len() == 0 {
        0
    } else {
        let before = max_line_width(lines.drop_last());
        let last = display_width(lines.last());
        if last > before {
            last
        } else {
            before
        }
    }
}

/// Every line with `prefix` in front.
pub open spec fn prefixed(prefix: Seq<char>, lines: Seq<Seq<char>>) -> Seq<Seq<char>> {
    Seq::new(lines.len(), |i: int| prefix + lines[i])
}

/// A line drawn as it stands, of the width that it takes when displayed,
/// inside a block of width `block_length`.
pub open spec fn plain_line(text: Seq<char>, block_length: usize, alignment: Alignment) -> PreformattedLineView {
    PreformattedLineView { text, unformatted_length: display_width(text), block_length, alignment }
}

/// The lines of a block quote, each followed by a line break.
pub open spec fn quote_lines(lines: Seq<Seq<char>>, block_length: usize, alignment: Alignment) -> Seq<
    RenderOperationView,
>
    decreases lines.len(),
{
    if lines.len() == 0 {
        Seq::empty()
    } else {
        quote_lines(lines.drop_last(), block_length, alignment).push(
            RenderOperationView::RenderPreformattedLine(
                plain_line(lines.last(), block_length, alignment),
            ),
        ).push(RenderOperationView::RenderLineBreak)
    }
}

/// A block quote: its colors, every line with the theme's prefix in front
/// inside a block as wide as the widest of them, and the default colors again.
pub open spec fn block_quote_operations(theme: PresentationTheme, lines: Seq<Seq<char>>) -> Seq<
    RenderOperationView,
> {
    let lines = prefixed(quote_prefix(theme), lines);
    (seq![RenderOperationView::SetColors(theme.block_quote.colors)] + quote_lines(
        lines,
        max_line_width(lines),
        theme.alignment_of(ElementType::BlockQuote),
    )).push(RenderOperationView::SetColors(theme.default_style.colors))
}

/// Every line with `padding` spaces in front and a line feed behind.
pub open spec fn padded_lines(lines: Seq<Seq<char>>, padding: u8) -> Seq<char>
    decreases lines.len(),
{
    if lines.len() == 0 {
        Seq::empty()
    } else {
        padded_lines(lines.drop_last(), padding) + repeat_char(' ', padding as nat) + lines.last().push(
            '\n',
        )
    }
}

/// The code that is handed to the highlighter: with a vertical padding an
/// empty line above and below, with a horizontal padding that many spaces in
/// front of every line.
pub open spec fn padded_code(contents: Seq<char>, horizontal: u8, vertical: u8) -> Seq<char> {
    if horizontal == 0 && vertical == 0 {
        contents
    } else {
        let above = if vertical > 0 {
            seq!['\n']
        } else {
            Seq::empty()
        };
        let body = if horizontal > 0 {
            padded_lines(lines_of(contents), horizontal)
        } else {
            contents
        };
        above + body + above
    }
}

/// The horizontal padding of code blocks.
pub open spec fn horizontal_padding(theme: PresentationTheme) -> u8 {
    match theme.code.padding.horizontal {
        Some(padding) => padding,
        None => 0,
    }
}

/// The vertical padding of code blocks.
pub open spec fn vertical_padding(theme: PresentationTheme) -> u8 {
    match theme.code.padding.vertical {
        Some(padding) => padding,
        None => 0,
    }
}

/// The width of the widest line of a block of code as the document holds it,
/// without any padding.
pub open spec fn code_width(contents: Seq<char>) -> usize {
    max_line_width(lines_of(contents))
}

/// The width of a block of code: the width of the widest of its lines,
/// without padding, plus the horizontal padding.
pub open spec fn code_block_length(widest: usize, horizontal: u8) -> int {
    widest + horizontal
}

/// A highlighted line: the line as the highlighter colored it, and the line as
/// it was.
pub struct CodeLineView {
    pub formatted: Seq<char>,
    pub plain: Seq<char>,
}

/// The width that the white space at the end of the colored line takes.
pub open spec fn trimmed_width(line: CodeLineView) -> int {
    display_width(line.formatted) - display_width(trim_end_of(line.formatted))
}

/// Whether the widths of a highlighted line fit together: what is trimmed
/// takes no negative width, and no more than the whole line as it was.
pub open spec fn line_consistent(line: CodeLineView) -> bool {
    0 <= trimmed_width(line) <= display_width(line.plain)
}

/// Whether the lines that a highlighter gave for a block of code whose widest
/// line is `widest` wide can be drawn: every line's widths fit together, and
/// the width of the block is a `usize`.
pub open spec fn highlight_acceptable(widest: usize, horizontal: u8, lines: Seq<CodeLineView>) -> bool {
    &&& code_block_length(widest, horizontal) <= usize::MAX
    &&& forall|i: int| 0 <= i < lines.len() ==> line_consistent(#[trigger] lines[i])
}

/// A line of code: the colored line without the white space at its end. Its
/// width is that of the line as it was, less the width of what was trimmed.
pub open spec fn code_line(line: CodeLineView, block_length: usize, alignment: Alignment) -> PreformattedLineView {
    PreformattedLineView {
        text: trim_end_of(line.formatted),
        unformatted_length: (display_width(line.plain) - trimmed_width(line)) as usize,
        block_length,
        alignment,
    }
}

/// The lines of a block of code, each followed by a line break.
pub open spec fn code_operations(lines: Seq<CodeLineView>, block_length: usize, alignment: Alignment) -> Seq<
    RenderOperationView,
>
    decreases lines.len(),
{
    if lines.len() == 0 {
        Seq::empty()
    } else {
        code_operations(lines.drop_last(), block_length, alignment).push(
            RenderOperationView::RenderPreformattedLine(
                code_line(lines.last(), block_length, alignment),
            ),
        ).push(RenderOperationView::RenderLineBreak)
    }
}

/// The width of a table's cell when displayed.
pub open spec fn cell_width(cell: Seq<StyledTextView>) -> usize {
    display_width(content_of(cell))
}

/// The width of the widest cell of `column` in `rows`.
pub open spec fn column_width(rows: Seq<Seq<Seq<StyledTextView>>>, column: int) -> usize
    decreases rows.len(),
{
    if rows.len() == 0 {
        0
    } else {
        let before = column_width(rows.drop_last(), column);
        let last = cell_width(rows.last()[column]);
        if last > before {
            last
        } else {
            before
        }
    }
}

/// All the rows of a table, the header first.
pub open spec fn table_rows(table: Table) -> Seq<Seq<Seq<StyledTextView>>> {
    seq![table.header.deep_view()] + table.rows.deep_view()
}

/// The width of every column of a table: that of its widest cell, the header's
/// included.
pub open spec fn table_widths(table: Table) -> Seq<usize> {
    Seq::new(table.header.0@.len(), |column: int| column_width(table_rows(table), column))
}

/// What stands between the cells of a row.
pub open spec fn cell_separator() -> Seq<char> {
    seq![' ', '│', ' ']
}

/// The spaces that fill a cell that is `cell` wide up to the width of its
/// column.
pub open spec fn padding_pieces(cell: usize, width: usize) -> Seq<StyledTextView> {
    if cell < width {
        seq![StyledTextView::plain(repeat_char(' ', (width - cell) as nat))]
    } else {
        Seq::empty()
    }
}

/// The pieces of a row whose cells are as wide as `cell_widths` says: the
/// cells, each filled up to the width of its column, with a separator between
/// them.
pub open spec fn row_pieces(
    cells: Seq<Seq<StyledTextView>>,
    cell_widths: Seq<usize>,
    widths: Seq<usize>,
) -> Seq<StyledTextView>
    decreases cells.len(),
{
    if cells.len() == 0 {
        Seq::empty()
    } else {
        let column = cells.len() - 1;
        row_pieces(cells.drop_last(), cell_widths, widths) + (if column > 0 {
            seq![StyledTextView::plain(cell_separator())]
        } else {
            Seq::empty()
        }) + cells.last() + padding_pieces(cell_widths[column], widths[column])
    }
}

/// The width of every cell of a row when displayed.
pub open spec fn cell_widths(cells: Seq<Seq<StyledTextView>>) -> Seq<usize> {
    Seq::new(cells.len(), |column: int| cell_width(cells[column]))
}

/// The pieces of a row: the cells, each filled up to the width of its column,
/// with a separator between them.
pub open spec fn row_chunks(cells: Seq<Seq<StyledTextView>>, widths: Seq<usize>) -> Seq<StyledTextView> {
    row_pieces(cells, cell_widths(cells), widths)
}

/// How far the rule under the header reaches beyond the width of the column
/// `index` of `count`: one for the space beside the separator, and one more
/// for the columns that have a separator on both sides.
pub open spec fn rule_margin(index: int, count: int) -> nat {
    if 0 < index < count - 1 {
        2
    } else {
        1
    }
}

/// The piece of the rule under the header for the column `index`: a crossing
/// where a separator stands above, and dashes.
pub open spec fn rule_piece(index: int, count: int, width: usize) -> Seq<char> {
    (if index > 0 {
        seq!['┼']
    } else {
        Seq::empty()
    }) + repeat_char('─', (width + rule_margin(index, count)) as nat)
}

/// The pieces of the rule under the header.
pub open spec fn rule_chunks(widths: Seq<usize>) -> Seq<StyledTextView> {
    Seq::new(
        widths.len(),
        |index: int| StyledTextView::plain(rule_piece(index, widths.len() as int, widths[index])),
    )
}

/// The rows of a table's body, each followed by a line break.
pub open spec fn body_operations(
    theme: PresentationTheme,
    rows: Seq<Seq<Seq<StyledTextView>>>,
    widths: Seq<usize>,
) -> Seq<RenderOperationView>
    decreases rows.len(),
{
    if rows.len() == 0 {
        Seq::empty()
    } else {
        body_operations(theme, rows.drop_last(), widths) + element_line(
            theme,
            row_chunks(rows.last(), widths),
            ElementType::Table,
        ).push(RenderOperationView::RenderLineBreak)
    }
}

/// A table: the header, the rule under it and the rows, each on a line of its
/// own.
pub open spec fn table_operations(theme: PresentationTheme, table: Table) -> Seq<RenderOperationView> {
    let widths = table_widths(table);
    element_line(theme, row_chunks(table.header.deep_view(), widths), ElementType::Table).push(
        RenderOperationView::RenderLineBreak,
    ) + element_line(theme, rule_chunks(widths), ElementType::Table).push(
        RenderOperationView::RenderLineBreak,
    ) + body_operations(theme, table.rows.deep_view(), widths)
}

/// A thematic break: a rule and a line break.
pub open spec fn separator_operations() -> Seq<RenderOperationView> {
    seq![RenderOperationView::RenderSeparator, RenderOperationView::RenderLineBreak]
}

/// The text of a field of the metadata that may be missing.
pub open spec fn text_or_empty(text: Option<Seq<char>>) -> Seq<char> {
    match text {
        Some(text) => text,
        None => Seq::empty(),
    }
}

/// The introduction slide, after its prelude: the title in bold in the middle
/// of the screen; under it the subtitle, where there is one; and the author,
/// where there is one, three lines further down or on the last row, as the
/// theme asks.
pub open spec fn intro_operations(theme: PresentationTheme, metadata: MetadataView) -> Seq<
    RenderOperationView,
> {
    let styles = theme.intro_slide;
    seq![RenderOperationView::JumpToVerticalCenter] + element_line(
        theme,
        seq![
            StyledTextView {
                text: text_or_empty(metadata.title),
                style: TextStyle::title(styles.title.colors),
            },
        ],
        ElementType::PresentationTitle,
    ).push(RenderOperationView::RenderLineBreak) + (match metadata.sub_title {
        Some(sub_title) => element_line(
            theme,
            seq![
                StyledTextView { text: sub_title, style: TextStyle::colored(styles.subtitle.colors) },
            ],
            ElementType::PresentationSubTitle,
        ).push(RenderOperationView::RenderLineBreak),
        None => Seq::empty(),
    }) + (match metadata.author {
        Some(author) => (match styles.author.positioning {
            AuthorPositioning::BelowTitle => line_breaks(3),
            AuthorPositioning::PageBottom => seq![RenderOperationView::JumpToBottom],
        }) + element_line(
            theme,
            seq![StyledTextView { text: author, style: TextStyle::colored(styles.author.colors) }],
            ElementType::PresentationAuthor,
        ),
        None => Seq::empty(),
    })
}

/// The text of a front matter.
pub open spec fn front_matter_of(element: MarkdownElement) -> Option<Seq<char>> {
    match element {
        MarkdownElement::FrontMatter(contents) => Some(contents@),
        _ => None,
    }
}

/// Whether `operations` are those that a slide starts with: colors, a clear
/// screen, margins and a line break.
pub open spec fn is_prelude(operations: Seq<RenderOperationView>) -> bool {
    &&& operations.len() == 4
    &&& operations[0] is SetColors
    &&& operations[1] is ClearScreen
    &&& operations[2] is ApplyMargin
    &&& operations[3] == RenderOperationView::RenderLineBreak
}

/// Whether `operations` are those that the slide `index` ends with: the layout
/// and the margins are left, and the slide's own footer is drawn on the last
/// row.
pub open spec fn is_footer(operations: Seq<RenderOperationView>, index: usize) -> bool {
    &&& operations.len() == 4
    &&& operations[0] == RenderOperationView::ExitLayout
    &&& operations[1] == RenderOperationView::PopMargin
    &&& operations[2] == RenderOperationView::JumpToBottom
    &&& match operations[3] {
        RenderOperationView::RenderDynamic(generator) => generator.current_slide == index,
        _ => false,
    }
}

/// None of `operations` clears the screen.
pub open spec fn keeps_screen(operations: Seq<RenderOperationView>) -> bool {
    forall|i: int| 0 <= i < operations.len() ==> !((#[trigger] operations[i]) is ClearScreen)
}

/// None of `operations` sets the colors.
pub open spec fn keeps_colors(operations: Seq<RenderOperationView>) -> bool {
    forall|i: int| 0 <= i < operations.len() ==> !((#[trigger] operations[i]) is SetColors)
}

/// The shape of the slide `index` of a presentation: it starts with a
/// prelude, ends with its own footer, and clears the screen nowhere else.
pub open spec fn slide_wf(slide: Seq<RenderOperationView>, index: usize) -> bool {
    &&& slide.len() >= 8
    &&& is_prelude(slide.take(4))
    &&& is_footer(slide.skip(slide.len() - 4), index)
    &&& keeps_screen(slide.skip(4))
}

/// Every slide has the shape of a slide.
pub open spec fn slides_wf(slides: Seq<Seq<RenderOperationView>>) -> bool {
    forall|i: int| 0 <= i < slides.len() ==> slide_wf(#[trigger] slides[i], i as usize)
}

/// No slide sets the colors after its prelude.
pub open spec fn slides_keep_colors(slides: Seq<Seq<RenderOperationView>>) -> bool {
    forall|i: int| 0 <= i < slides.len() ==> keeps_colors((#[trigger] slides[i]).skip(4))
}

/// None of `elements` is a block quote.
pub open spec fn no_block_quotes(elements: Seq<MarkdownElement>) -> bool {
    forall|i: int| 0 <= i < elements.len() ==> !((#[trigger] elements[i]) is BlockQuote)
}

/// How many of `operations` are as `wanted` says.
pub open spec fn count_where(
    operations: Seq<RenderOperationView>,
    wanted: spec_fn(RenderOperationView) -> bool,
) -> nat
    decreases operations.len(),
{
    if operations.len() == 0 {
        0
    } else {
        count_where(operations.drop_last(), wanted) + if wanted(operations.last()) {
            1nat
        } else {
            0nat
        }
    }
}

/// How often `operations` clear the screen.
pub open spec fn clear_screens(operations: Seq<RenderOperationView>) -> nat {
    count_where(operations, |operation: RenderOperationView| operation is ClearScreen)
}

/// How often `operations` set the colors.
pub open spec fn color_sets(operations: Seq<RenderOperationView>) -> nat {
    count_where(operations, |operation: RenderOperationView| operation is SetColors)
}

/// The instructions among `operations` that draw something or move to the
/// next row, in order.
pub open spec fn visible(operations: Seq<RenderOperationView>) -> Seq<RenderOperationView>
    decreases operations.len(),
{
    if operations.len() == 0 {
        Seq::empty()
    } else if operations[0].is_visible() {
        seq![operations[0]] + visible(operations.drop_first())
    } else {
        visible(operations.drop_first())
    }
}

/// Whether the first of `operations` that is visible, if any is, is no line
/// break.
pub open spec fn leads(operations: Seq<RenderOperationView>) -> bool {
    visible(operations).len() > 0 ==> visible(operations)[0] != RenderOperationView::RenderLineBreak
}

/// Whether every slide goes on with something other than a line break after
/// its prelude.
pub open spec fn slides_lead(slides: Seq<Seq<RenderOperationView>>) -> bool {
    forall|i: int| 0 <= i < slides.len() ==> leads((#[trigger] slides[i]).skip(4))
}

/// Whether an element opens with content: whether its instructions, together
/// with the line break that follows the element, begin with something other
/// than a line break. Of the comments, the command to leave the layout and
/// the notes of several lines do not.
pub open spec fn opens(theme: PresentationTheme, element: MarkdownElement) -> bool {
    match element {
        MarkdownElement::FrontMatter(_) => true,
        MarkdownElement::SetexHeading { text } => leads(
            slide_title_operations(theme, text.deep_view()),
        ),
        MarkdownElement::Heading { level, text } => leads(
            heading_operations(theme, level, text.deep_view()).push(
                RenderOperationView::RenderLineBreak,
            ),
        ),
        MarkdownElement::Paragraph(elements) => leads(
            paragraph_operations(theme, elements@).push(RenderOperationView::RenderLineBreak),
        ),
        MarkdownElement::List(items) => leads(
            list_operations(theme, items@).push(RenderOperationView::RenderLineBreak),
        ),
        MarkdownElement::Table(table) => leads(
            table_operations(theme, table).push(RenderOperationView::RenderLineBreak),
        ),
        MarkdownElement::ThematicBreak => true,
        MarkdownElement::Comment(comment) => !comment@.contains('\n') && command_of(comment@) != Ok::<
            CommentCommandView,
            crate::command::CommandProblem,
        >(CommentCommandView::ResetLayout),
        MarkdownElement::BlockQuote(lines) => leads(
            block_quote_operations(theme, lines.deep_view()).push(
                RenderOperationView::RenderLineBreak,
            ),
        ),
        MarkdownElement::Code(_) => true,
        MarkdownElement::Image(_) => true,
    }
}

/// Whether the slide at hand shows something after an element, given whether
/// it showed something before: the end of a slide begins a slide that shows
/// nothing yet; the front matter, a pause and the commands that set up a
/// layout or enter a column show nothing of their own; everything else shows
/// something, be it the line break that follows it.
pub open spec fn shows_after(shown: bool, element: MarkdownElement) -> bool {
    match element {
        MarkdownElement::FrontMatter(_) => shown,
        MarkdownElement::Comment(comment) => if comment@.contains('\n') {
            true
        } else {
            match command_of(comment@) {
                Ok(CommentCommandView::EndSlide) => false,
                Ok(CommentCommandView::ResetLayout) => true,
                _ => shown,
            }
        },
        _ => true,
    }
}

/// Whether every element that is the first to show something in its slide
/// opens with content. `shown` says whether the slide at hand shows something
/// already.
pub open spec fn open_in_turn(
    theme: PresentationTheme,
    shown: bool,
    elements: Seq<MarkdownElement>,
) -> bool
    decreases elements.len(),
{
    if elements.len() == 0 {
        true
    } else {
        &&& shown || opens(theme, elements[0])
        &&& open_in_turn(theme, shows_after(shown, elements[0]), elements.drop_first())
    }
}

/// What a build asks of the outside.
pub enum RequestView {
    /// The built-in theme of this name.
    NamedTheme { name: Seq<char> },
    /// The theme in the file at this path.
    ThemeFile { path: Seq<char> },
    /// The theme `base` with the settings of `overrides` in place of its own.
    ThemeOverrides { base: PresentationTheme, overrides: YamlNode },
    /// Whether there is a highlighter theme of this name.
    CodeTheme { name: Seq<char> },
    /// The lines of `code`, highlighted.
    Highlight { code: Seq<char>, language: ProgrammingLanguage },
    /// The image in the file at this path.
    Image { path: Seq<char> },
}

/// The state of a build.
#[verifier::ext_equal]
pub struct BuilderView {
    /// The instructions of the slide that is being built.
    pub operations: Seq<RenderOperationView>,
    /// The slides that are done.
    pub slides: Seq<Seq<RenderOperationView>>,
    pub theme: PresentationTheme,
    /// Whether the element at hand is not followed by a line break.
    pub ignore_element_line_break: bool,
    /// After a column layout was set up, and until something follows it: where
    /// the instruction that follows it will stand.
    pub column_mark: Option<usize>,
    /// Whether the last element was a list.
    pub last_element_is_list: bool,
    pub layout: LayoutState,
    /// The author, for the footers.
    pub author: Seq<char>,
    /// The elements that are still to be built, in order.
    pub remaining: Seq<MarkdownElement>,
    /// The document's metadata.
    pub metadata: MetadataView,
    /// The width of the widest line, without padding, of the block of code
    /// whose highlighted lines the build waits for.
    pub code_width: usize,
}

/// Where a build stands after a step.
#[verifier::ext_equal]
pub enum StepView {
    /// The build waits for the answer to a request.
    Pending(BuilderView, RequestView),
    /// The answer that was given cannot be used; the build waits as before.
    Rejected(BuilderView, RequestView),
    /// The build is done.
    Finished(PresentationView),
    /// The build failed.
    Failed(BuildErrorView),
}

impl RequestView {
    /// Whether the request fits the state in which the build waits: a theme
    /// is asked for before anything is drawn, and the lines of a block of code
    /// and an image are asked for inside a slide.
    pub open spec fn fits(self, state: BuilderView) -> bool {
        match self {
            RequestView::NamedTheme { .. } => state.operations.len() == 0,
            RequestView::ThemeFile { .. } => state.operations.len() == 0,
            RequestView::ThemeOverrides { .. } => state.operations.len() == 0,
            RequestView::CodeTheme { .. } => true,
            RequestView::Highlight { .. } => state.started() && !state.ignore_element_line_break,
            RequestView::Image { .. } => state.started() && !state.ignore_element_line_break,
        }
    }
}

impl StepView {
    /// What holds after every step. Where the build waits, its state is well
    /// formed and the request fits it. Where it is done, the cursor is on the
    /// first slide, and every slide has the shape of a slide.
    pub open spec fn wf(self) -> bool {
        match self {
            StepView::Pending(state, request) => state.wf() && request.fits(state),
            StepView::Rejected(state, request) => state.wf() && request.fits(state),
            StepView::Finished(presentation) => {
                &&& presentation.current_slide_index == 0
                &&& presentation.slides.len() > 0
                &&& slides_wf(presentation.slides)
            },
            StepView::Failed(_) => true,
        }
    }

    /// No slide, done or at hand, sets the colors after its prelude.
    pub open spec fn keeps_colors(self) -> bool {
        match self {
            StepView::Pending(state, _) => state.keeps_colors(),
            StepView::Rejected(state, _) => state.keeps_colors(),
            StepView::Finished(presentation) => slides_keep_colors(presentation.slides),
            StepView::Failed(_) => true,
        }
    }

    /// Every slide, done or at hand, goes on with something other than a line
    /// break after its prelude, and of the elements that are still to be
    /// built, every one that is the first to show something in its slide
    /// opens with content.
    pub open spec fn leads(self) -> bool {
        match self {
            StepView::Pending(state, request) => state.leads() && open_in_turn(
                state.theme,
                state.turn(request),
                state.remaining,
            ),
            StepView::Rejected(state, request) => state.leads() && open_in_turn(
                state.theme,
                state.turn(request),
                state.remaining,
            ),
            StepView::Finished(presentation) => slides_lead(presentation.slides),
            StepView::Failed(_) => true,
        }
    }

    /// No element that is still to be built is a block quote.
    pub open spec fn no_block_quotes(self) -> bool {
        match self {
            StepView::Pending(state, _) => no_block_quotes(state.remaining),
            StepView::Rejected(state, _) => no_block_quotes(state.remaining),
            _ => true,
        }
    }
}

impl BuilderView {
    /// The state of a builder that has built nothing yet.
    pub open spec fn initial(theme: PresentationTheme) -> BuilderView {
        BuilderView {
            operations: Seq::empty(),
            slides: Seq::empty(),
            theme,
            ignore_element_line_break: false,
            column_mark: None,
            last_element_is_list: false,
            layout: LayoutState::Default,
            author: Seq::empty(),
            remaining: Seq::empty(),
            metadata: MetadataView::none(),
            code_width: 0,
        }
    }

    /// Whether a slide is at hand.
    pub open spec fn started(self) -> bool {
        self.operations.len() >= 4
    }

    /// The shape of the state: every element that is still to be built is
    /// valid, a column that was entered is one of the layout's, every slide
    /// that is done has the shape of a slide, and the slide at hand, if there
    /// is one, starts with a prelude and clears the screen nowhere else.
    pub open spec fn shape(self) -> bool {
        &&& all_valid(self.remaining)
        &&& self.layout.valid()
        &&& slides_wf(self.slides)
        &&& self.operations.len() == 0 || (self.operations.len() >= 4 && is_prelude(
            self.operations.take(4),
        ) && keeps_screen(self.operations.skip(4)))
    }

    /// What holds of the state between two elements: it has its shape, and
    /// after a list something follows the prelude.
    pub open spec fn wf(self) -> bool {
        &&& self.shape()
        &&& self.last_element_is_list ==> self.operations.len() >= 5
    }

    /// No slide, done or at hand, sets the colors after its prelude.
    pub open spec fn keeps_colors(self) -> bool {
        &&& slides_keep_colors(self.slides)
        &&& self.operations.len() >= 4 ==> keeps_colors(self.operations.skip(4))
    }

    /// Every slide, done or at hand, goes on with something other than a line
    /// break after its prelude.
    pub open spec fn leads(self) -> bool {
        &&& slides_lead(self.slides)
        &&& self.operations.len() >= 4 ==> leads(self.operations.skip(4))
    }

    /// Whether the slide at hand shows something after its prelude.
    pub open spec fn shows(self) -> bool {
        self.operations.len() >= 4 && visible(self.operations.skip(4)).len() > 0
    }

    /// Whether the slide at hand shows something when the build goes on after
    /// `request`: code and images do, once they are there.
    pub open spec fn turn(self, request: RequestView) -> bool {
        match request {
            RequestView::Highlight { .. } => true,
            RequestView::Image { .. } => true,
            _ => self.shows(),
        }
    }

    /// Whether the build goes on with content after `answer`: of the elements
    /// that are still to be built, every one that is the first to show
    /// something in its slide opens with content, also with the theme that
    /// the answer brings, if it brings one; and highlighted code that is the
    /// first to show something has a line.
    pub open spec fn opens_after(self, request: RequestView, answer: BuildAnswer) -> bool {
        &&& open_in_turn(self.theme, self.turn(request), self.remaining)
        &&& match answer {
            BuildAnswer::NamedTheme(Some(theme)) => open_in_turn(theme, false, self.remaining),
            BuildAnswer::ThemeFile(Ok(theme)) => open_in_turn(theme, false, self.remaining),
            BuildAnswer::ThemeOverrides(Ok(theme)) => open_in_turn(theme, false, self.remaining),
            BuildAnswer::Highlight(lines) => self.shows() || lines@.len() > 0,
            _ => true,
        }
    }

    /// Whether nothing was built yet.
    pub open spec fn fresh(self) -> bool {
        &&& self.layout == LayoutState::Default
        &&& self.operations.len() == 0
        &&& self.slides.len() == 0
        &&& !self.last_element_is_list
    }

    /// With one more instruction.
    pub open spec fn push(self, operation: RenderOperationView) -> BuilderView {
        BuilderView { operations: self.operations.push(operation), ..self }
    }

    /// With more instructions.
    pub open spec fn extend(self, operations: Seq<RenderOperationView>) -> BuilderView {
        BuilderView { operations: self.operations + operations, ..self }
    }

    /// With a line break.
    pub open spec fn push_line_break(self) -> BuilderView {
        self.push(RenderOperationView::RenderLineBreak)
    }

    /// With what every slide starts with.
    pub open spec fn push_slide_prelude(self) -> BuilderView {
        self.extend(prelude(self.theme))
    }

    /// With what every slide ends with.
    pub open spec fn push_footer(self) -> BuilderView {
        self.extend(footer(self.theme, self.slides.len() as usize))
    }

    /// The slide at hand is closed with its footer and a new one is begun with
    /// its prelude. Where `reset` is set, the new slide starts afresh: it is
    /// outside any layout, and the element at hand is not followed by a line
    /// break.
    pub open spec fn terminate_slide(self, reset: bool) -> BuilderView {
        let closed = self.push_footer();
        let fresh = (BuilderView {
            operations: Seq::empty(),
            slides: closed.slides.push(closed.operations),
            ..closed
        }).push_slide_prelude();
        if reset {
            BuilderView {
                ignore_element_line_break: true,
                column_mark: None,
                layout: LayoutState::Default,
                ..fresh
            }
        } else {
            fresh
        }
    }

    /// The instructions that a pause keeps: all of them, but for a line break
    /// at the end when the last element was a list.
    pub open spec fn paused_operations(self) -> Seq<RenderOperationView> {
        if self.last_element_is_list && self.operations.len() > 0 && self.operations.last()
            == RenderOperationView::RenderLineBreak {
            self.operations.drop_last()
        } else {
            self.operations
        }
    }

    /// A pause: the slide at hand is closed, and the next one starts with what
    /// this one showed. Nothing else changes.
    pub open spec fn process_pause(self) -> BuilderView {
        let kept = self.paused_operations();
        BuilderView {
            operations: kept,
            ..(BuilderView { operations: kept, ..self }).terminate_slide(false)
        }
    }

    /// The state after a command.
    pub open spec fn apply_command(self, command: CommentCommandView) -> Result<
        BuilderView,
        BuildErrorView,
    > {
        match command {
            CommentCommandView::Pause => Ok(self.process_pause()),
            CommentCommandView::EndSlide => Ok(self.terminate_slide(true)),
            CommentCommandView::InitColumnLayout(columns) => match layout_problem(columns) {
                Some(reason) => Err(BuildErrorView::InvalidLayout(reason)),
                None => Ok(
                    BuilderView {
                        layout: LayoutState::InLayout { columns_count: columns.len() as usize },
                        column_mark: Some((self.operations.len() + 1) as usize),
                        ..self.push(RenderOperationView::InitColumnLayout { columns })
                    },
                ),
            },
            CommentCommandView::ResetLayout => Ok(
                BuilderView {
                    layout: LayoutState::Default,
                    ..self.extend(
                        seq![RenderOperationView::ExitLayout, RenderOperationView::RenderLineBreak],
                    )
                },
            ),
            CommentCommandView::Column(column) => match self.layout.entered(column) {
                Err(error) => Err(error),
                Ok(layout) => Ok(
                    BuilderView {
                        layout,
                        ..self.push(RenderOperationView::EnterColumn { column })
                    },
                ),
            },
        }
    }

    /// The state after a comment. A comment of several lines is a note and
    /// changes nothing; a comment of one line has to be a command, and is not
    /// followed by a line break.
    pub open spec fn process_comment(self, comment: Seq<char>) -> Result<
        BuilderView,
        BuildErrorView,
    > {
        if comment.contains('\n') {
            Ok(self)
        } else {
            match command_of(comment) {
                Err(problem) => Err(BuildErrorView::CommandParse(problem)),
                Ok(command) => match self.apply_command(command) {
                    Err(error) => Err(error),
                    Ok(applied) => Ok(BuilderView { ignore_element_line_break: true, ..applied }),
                },
            }
        }
    }

    /// The state after an element that needs nothing from the outside: any
    /// element but code and images.
    #[verifier::opaque]
    pub open spec fn process_element(self, element: MarkdownElement) -> Result<
        BuilderView,
        BuildErrorView,
    > {
        match element {
            MarkdownElement::FrontMatter(_) => Ok(
                BuilderView { ignore_element_line_break: true, ..self },
            ),
            MarkdownElement::SetexHeading { text } => Ok(
                BuilderView {
                    ignore_element_line_break: true,
                    ..self.extend(slide_title_operations(self.theme, text.deep_view()))
                },
            ),
            MarkdownElement::Heading { level, text } => Ok(
                self.extend(heading_operations(self.theme, level, text.deep_view())),
            ),
            MarkdownElement::Paragraph(elements) => Ok(
                self.extend(paragraph_operations(self.theme, elements@)),
            ),
            MarkdownElement::List(items) => Ok(self.extend(list_operations(self.theme, items@))),
            MarkdownElement::Table(table) => Ok(self.extend(table_operations(self.theme, table))),
            MarkdownElement::ThematicBreak => Ok(self.extend(separator_operations())),
            MarkdownElement::Comment(comment) => self.process_comment(comment@),
            MarkdownElement::BlockQuote(lines) => Ok(
                self.extend(block_quote_operations(self.theme, lines.deep_view())),
            ),
            MarkdownElement::Code(_) => Ok(self),
            MarkdownElement::Image(_) => Ok(self),
        }
    }

    /// After a column layout was set up, the first instruction that follows it
    /// has to enter a column or leave the layout.
    pub open spec fn validate_last_operation(self) -> Result<BuilderView, BuildErrorView> {
        match self.column_mark {
            None => Ok(self),
            Some(mark) => if self.operations.len() <= mark {
                Ok(self)
            } else {
                match self.operations[mark as int] {
                    RenderOperationView::EnterColumn { .. } => Ok(
                        BuilderView { column_mark: None, ..self },
                    ),
                    RenderOperationView::ExitLayout => Ok(BuilderView { column_mark: None, ..self }),
                    _ => Err(BuildErrorView::NotInsideColumn),
                }
            },
        }
    }

    /// What follows every element: it is noted whether the element was a list,
    /// the instruction after a column layout is checked, and a line break is
    /// added unless the element asked for none.
    #[verifier::opaque]
    pub open spec fn settle(self, is_list: bool) -> Result<BuilderView, BuildErrorView> {
        match (BuilderView { last_element_is_list: is_list, ..self }).validate_last_operation() {
            Err(error) => Err(error),
            Ok(checked) => Ok(
                if checked.ignore_element_line_break {
                    checked
                } else {
                    checked.push_line_break()
                },
            ),
        }
    }

    /// The end of the build: the slide at hand is closed, and the slides make
    /// the presentation.
    pub open spec fn finish(self) -> StepView {
        StepView::Finished(
            PresentationView {
                slides: self.terminate_slide(true).slides,
                current_slide_index: 0,
                author: self.author,
            },
        )
    }

    /// The request for the highlighted lines of a block of code.
    pub open spec fn highlight_request(self, contents: Seq<char>, language: ProgrammingLanguage) -> RequestView {
        RequestView::Highlight {
            code: padded_code(contents, horizontal_padding(self.theme), vertical_padding(self.theme)),
            language,
        }
    }

    /// The build from the first of the remaining elements on: element by
    /// element, up to the first that needs something from the outside, that
    /// fails, or to the end.
    pub open spec fn run(self) -> StepView
        decreases self.remaining.len(), 0nat,
    {
        if self.remaining.len() == 0 {
            self.finish()
        } else {
            let element = self.remaining[0];
            let rest = self.remaining.drop_first();
            let next = BuilderView { remaining: rest, ignore_element_line_break: false, ..self };
            match element {
                MarkdownElement::Code(code) => StepView::Pending(
                    BuilderView { code_width: code_width(code.contents@), ..next },
                    next.highlight_request(code.contents@, code.language),
                ),
                MarkdownElement::Image(path) => StepView::Pending(
                    next,
                    RequestView::Image { path: path@ },
                ),
                _ => match next.process_element(element) {
                    Err(error) => StepView::Failed(error),
                    Ok(processed) => (BuilderView { remaining: rest, ..processed }).proceed(
                        element is List,
                    ),
                },
            }
        }
    }

    /// The build after an element was turned into instructions.
    pub open spec fn proceed(self, is_list: bool) -> StepView
        decreases self.remaining.len(), 1nat,
    {
        match self.settle(is_list) {
            Err(error) => StepView::Failed(error),
            Ok(settled) => (BuilderView { remaining: self.remaining, ..settled }).run(),
        }
    }

    /// The build of the slides: the first slide is begun, unless the
    /// introduction slide has begun one, and the elements are built.
    pub open spec fn slides_stage(self) -> StepView {
        if self.operations.len() == 0 {
            self.push_slide_prelude().run()
        } else {
            self.run()
        }
    }

    /// The highlighter's theme: where the theme names one, it is asked for.
    pub open spec fn code_theme_stage(self) -> StepView {
        match self.theme.code.theme_name {
            Some(name) => StepView::Pending(self, RequestView::CodeTheme { name: name@ }),
            None => self.slides_stage(),
        }
    }

    /// The introduction slide: where the document has a title, a subtitle or
    /// an author, it is the first slide.
    pub open spec fn intro_stage(self) -> StepView {
        if self.metadata.has_intro() {
            self.push_slide_prelude().extend(
                intro_operations(self.theme, self.metadata),
            ).terminate_slide(true).code_theme_stage()
        } else {
            self.code_theme_stage()
        }
    }

    /// The theme's overrides: where the document has some, the theme with
    /// them merged in is asked for.
    pub open spec fn overrides_stage(self) -> StepView {
        match self.metadata.theme.overrides {
            Some(overrides) => StepView::Pending(
                BuilderView {
                    metadata: MetadataView {
                        theme: ThemeMetadataView { overrides: None, ..self.metadata.theme },
                        ..self.metadata
                    },
                    ..self
                },
                RequestView::ThemeOverrides { base: self.theme, overrides },
            ),
            None => self.intro_stage(),
        }
    }

    /// The theme's file: where the document names one, its theme is asked for.
    pub open spec fn theme_file_stage(self) -> StepView {
        match self.metadata.theme.path {
            Some(path) => StepView::Pending(self, RequestView::ThemeFile { path }),
            None => self.overrides_stage(),
        }
    }

    /// The theme's name: a document cannot name a theme and a theme's file;
    /// where it names a theme, that theme is asked for.
    pub open spec fn theme_name_stage(self) -> StepView {
        if self.metadata.theme.name is Some && self.metadata.theme.path is Some {
            StepView::Failed(BuildErrorView::InvalidMetadata(MetadataProblem::ThemeNameAndPath))
        } else {
            match self.metadata.theme.name {
                Some(name) => StepView::Pending(self, RequestView::NamedTheme { name }),
                None => self.theme_file_stage(),
            }
        }
    }

    /// The build of `elements` from the start. A front matter counts only as
    /// the first element: its metadata gives the author, the theme and the
    /// introduction slide.
    pub open spec fn start(self, elements: Seq<MarkdownElement>) -> StepView {
        let fed = BuilderView { remaining: elements, ..self };
        if elements.len() > 0 && front_matter_of(elements[0]) is Some {
            match metadata_of(front_matter_of(elements[0]).unwrap()) {
                Err(problem) => StepView::Failed(BuildErrorView::InvalidMetadata(problem)),
                Ok(metadata) => (BuilderView {
                    author: text_or_empty(metadata.author),
                    metadata,
                    ..fed
                }).theme_name_stage(),
            }
        } else {
            fed.code_theme_stage()
        }
    }

    /// With another theme.
    pub open spec fn with_theme(self, theme: PresentationTheme) -> BuilderView {
        BuilderView { theme, ..self }
    }

    /// The build after the lines of a block of code came back.
    pub open spec fn push_code(self, lines: Seq<CodeLineView>) -> BuilderView {
        self.extend(
            code_operations(
                lines,
                code_block_length(self.code_width, horizontal_padding(self.theme)) as usize,
                self.theme.alignment_of(ElementType::Code),
            ),
        )
    }

    /// The build after an image came back.
    pub open spec fn push_image(self, image: Image) -> BuilderView {
        self.push(RenderOperationView::RenderImage(image))
    }

    /// The build after the answer to `request`. An answer to another request
    /// is rejected, and so are highlighted lines that cannot be drawn.
    pub open spec fn resume(self, request: RequestView, answer: BuildAnswer) -> StepView {
        match (request, answer) {
            (RequestView::NamedTheme { .. }, BuildAnswer::NamedTheme(found)) => match found {
                Some(theme) => self.with_theme(theme).theme_file_stage(),
                None => StepView::Failed(
                    BuildErrorView::InvalidMetadata(MetadataProblem::UnknownTheme),
                ),
            },
            (RequestView::ThemeFile { .. }, BuildAnswer::ThemeFile(loaded)) => match loaded {
                Ok(theme) => self.with_theme(theme).overrides_stage(),
                Err(error) => StepView::Failed(BuildErrorView::InvalidTheme(error.message@)),
            },
            (RequestView::ThemeOverrides { .. }, BuildAnswer::ThemeOverrides(merged)) => match merged {
                Ok(theme) => self.with_theme(theme).intro_stage(),
                Err(_) => StepView::Failed(
                    BuildErrorView::InvalidMetadata(MetadataProblem::InvalidOverrides),
                ),
            },
            (RequestView::CodeTheme { .. }, BuildAnswer::CodeTheme(known)) => if known {
                self.slides_stage()
            } else {
                StepView::Failed(BuildErrorView::InvalidCodeTheme)
            },
            (RequestView::Highlight { .. }, BuildAnswer::Highlight(lines)) => if highlight_acceptable(
                self.code_width,
                horizontal_padding(self.theme),
                lines.deep_view(),
            ) {
                self.push_code(lines.deep_view()).proceed(false)
            } else {
                StepView::Rejected(self, request)
            },
            (RequestView::Image { .. }, BuildAnswer::Image(loaded)) => match loaded {
                Ok(image) => self.push_image(image).proceed(false),
                Err(error) => StepView::Failed(BuildErrorView::LoadImage(error.message@)),
            },
            _ => StepView::Rejected(self, request),
        }
    }
}

} // verus!
