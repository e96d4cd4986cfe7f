//! What holds of every build: the shape of the slides, and what follows from
//! it.
use crate::builder::BuildAnswer;
use crate::command::command_of;
use crate::command::CommentCommandView;
use crate::elements::all_valid;
use crate::elements::ListItem;
use crate::elements::MarkdownElement;
use crate::elements::ParagraphElement;
use crate::elements::Table;
use crate::error::BuildErrorView;
use crate::layout::LayoutState;
use crate::metadata::MetadataView;
use crate::model::block_quote_operations;
use crate::model::body_operations;
use crate::model::clear_screens;
use crate::model::code_operations;
use crate::model::color_sets;
use crate::model::count_where;
use crate::model::element_line;
use crate::model::footer;
use crate::model::heading_operations;
use crate::model::intro_operations;
use crate::model::is_prelude;
use crate::model::keeps_colors;
use crate::model::keeps_screen;
use crate::model::list_item_operations;
use crate::model::list_operations;
use crate::model::no_block_quotes;
use crate::model::paragraph_operations;
use crate::model::paragraph_part;
use crate::model::prelude;
use crate::model::quote_lines;
use crate::model::separator_operations;
use crate::model::slide_title_operations;
use crate::model::slide_wf;
use crate::model::table_operations;
use crate::model::BuilderView;
use crate::model::CodeLineView;
use crate::model::RequestView;
use crate::presentation::RenderOperationView;
use crate::text::StyledTextView;
use crate::theme::Alignment;
use crate::theme::ElementType;
use crate::theme::PresentationTheme;
use vstd::prelude::*;

verus! {

/// Instructions that neither clear the screen nor set the colors.
pub open spec fn quiet(operations: Seq<RenderOperationView>) -> bool {
    keeps_screen(operations) && keeps_colors(operations)
}

pub(crate) proof fn lemma_quiet_add(first: Seq<RenderOperationView>, second: Seq<RenderOperationView>)
    ensures
        keeps_screen(first + second) == (keeps_screen(first) && keeps_screen(second)),
        keeps_colors(first + second) == (keeps_colors(first) && keeps_colors(second)),
{
    let both = first + second;
    if keeps_screen(both) {
        assert forall|i: int| 0 <= i < first.len() implies !((#[trigger] first[i]) is ClearScreen) by {
            assert(both[i] == first[i]);
        }
        assert forall|i: int| 0 <= i < second.len() implies !((#[trigger] second[i])
            is ClearScreen) by {
            assert(both[first.len() + i] == second[i]);
        }
    }
    if keeps_colors(both) {
        assert forall|i: int| 0 <= i < first.len() implies !((#[trigger] first[i]) is SetColors) by {
            assert(both[i] == first[i]);
        }
        assert forall|i: int| 0 <= i < second.len() implies !((#[trigger] second[i])
            is SetColors) by {
            assert(both[first.len() + i] == second[i]);
        }
    }
}

pub(crate) proof fn lemma_quiet_push(operations: Seq<RenderOperationView>, last: RenderOperationView)
    ensures
        keeps_screen(operations.push(last)) == (keeps_screen(operations) && !(last is ClearScreen)),
        keeps_colors(operations.push(last)) == (keeps_colors(operations) && !(last is SetColors)),
{
    assert(operations.push(last) =~= operations + seq![last]);
    lemma_quiet_add(operations, seq![last]);
    assert(seq![last][0] == last);
}

proof fn lemma_heading_quiet(theme: PresentationTheme, level: u8, text: Seq<StyledTextView>)
    ensures
        quiet(heading_operations(theme, level, text)),
{
}

proof fn lemma_slide_title_quiet(theme: PresentationTheme, text: Seq<StyledTextView>)
    ensures
        quiet(slide_title_operations(theme, text)),
{
    let operations = slide_title_operations(theme, text);
    assert forall|i: int| 0 <= i < operations.len() implies !((#[trigger] operations[i])
        is ClearScreen) && !(operations[i] is SetColors) by {}
}

proof fn lemma_paragraph_quiet(theme: PresentationTheme, elements: Seq<ParagraphElement>)
    ensures
        quiet(paragraph_operations(theme, elements)),
    decreases elements.len(),
{
    if elements.len() > 0 {
        lemma_paragraph_quiet(theme, elements.drop_last());
        lemma_quiet_add(
            paragraph_operations(theme, elements.drop_last()),
            paragraph_part(theme, elements.last()),
        );
    }
}

proof fn lemma_list_quiet(theme: PresentationTheme, items: Seq<ListItem>)
    ensures
        quiet(list_operations(theme, items)),
    decreases items.len(),
{
    if items.len() > 0 {
        lemma_list_quiet(theme, items.drop_last());
        let item = list_item_operations(theme, items.last());
        assert forall|i: int| 0 <= i < item.len() implies !((#[trigger] item[i]) is ClearScreen)
            && !(item[i] is SetColors) by {}
        lemma_quiet_add(list_operations(theme, items.drop_last()), item);
    }
}

proof fn lemma_quote_lines_quiet(lines: Seq<Seq<char>>, block_length: usize, alignment: Alignment)
    ensures
        quiet(quote_lines(lines, block_length, alignment)),
    decreases lines.len(),
{
    if lines.len() > 0 {
        lemma_quote_lines_quiet(lines.drop_last(), block_length, alignment);
    }
}

proof fn lemma_block_quote_keeps_screen(theme: PresentationTheme, lines: Seq<Seq<char>>)
    ensures
        keeps_screen(block_quote_operations(theme, lines)),
{
    let quoted = crate::model::prefixed(crate::model::quote_prefix(theme), lines);
    let inner = quote_lines(
        quoted,
        crate::model::max_line_width(quoted),
        theme.alignment_of(ElementType::BlockQuote),
    );
    lemma_quote_lines_quiet(
        quoted,
        crate::model::max_line_width(quoted),
        theme.alignment_of(ElementType::BlockQuote),
    );
    let first = seq![RenderOperationView::SetColors(theme.block_quote.colors)];
    lemma_quiet_add(first, inner);
    lemma_quiet_push(first + inner, RenderOperationView::SetColors(theme.default_style.colors));
}

pub(crate) proof fn lemma_code_quiet(lines: Seq<CodeLineView>, block_length: usize, alignment: Alignment)
    ensures
        quiet(code_operations(lines, block_length, alignment)),
    decreases lines.len(),
{
    if lines.len() > 0 {
        lemma_code_quiet(lines.drop_last(), block_length, alignment);
    }
}

proof fn lemma_body_quiet(
    theme: PresentationTheme,
    rows: Seq<Seq<Seq<StyledTextView>>>,
    widths: Seq<usize>,
)
    ensures
        quiet(body_operations(theme, rows, widths)),
    decreases rows.len(),
{
    if rows.len() > 0 {
        lemma_body_quiet(theme, rows.drop_last(), widths);
        let row = element_line(
            theme,
            crate::model::row_chunks(rows.last(), widths),
            ElementType::Table,
        ).push(RenderOperationView::RenderLineBreak);
        lemma_quiet_add(body_operations(theme, rows.drop_last(), widths), row);
    }
}

proof fn lemma_table_quiet(theme: PresentationTheme, table: Table)
    ensures
        quiet(table_operations(theme, table)),
{
    let widths = crate::model::table_widths(table);
    let header = element_line(
        theme,
        crate::model::row_chunks(table.header.deep_view(), widths),
        ElementType::Table,
    ).push(RenderOperationView::RenderLineBreak);
    let rule = element_line(theme, crate::model::rule_chunks(widths), ElementType::Table).push(
        RenderOperationView::RenderLineBreak,
    );
    let body = body_operations(theme, table.rows.deep_view(), widths);
    lemma_body_quiet(theme, table.rows.deep_view(), widths);
    lemma_quiet_add(header, rule);
    lemma_quiet_add(header + rule, body);
}

pub(crate) proof fn lemma_intro_quiet(theme: PresentationTheme, metadata: MetadataView)
    ensures
        quiet(intro_operations(theme, metadata)),
{
    let operations = intro_operations(theme, metadata);
    assert forall|i: int| 0 <= i < operations.len() implies !((#[trigger] operations[i])
        is ClearScreen) && !(operations[i] is SetColors) by {}
}

/// More instructions inside a slide keep the shape of the state.
pub(crate) proof fn lemma_extend(state: BuilderView, operations: Seq<RenderOperationView>)
    requires
        state.shape(),
        state.started(),
        keeps_screen(operations),
    ensures
        state.extend(operations).shape(),
        state.extend(operations).started(),
        state.keeps_colors() && keeps_colors(operations) ==> state.extend(operations).keeps_colors(),
{
    let extended = state.operations + operations;
    assert(extended.take(4) =~= state.operations.take(4));
    assert(extended.skip(4) =~= state.operations.skip(4) + operations);
    lemma_quiet_add(state.operations.skip(4), operations);
}

pub(crate) proof fn lemma_push(state: BuilderView, operation: RenderOperationView)
    requires
        state.shape(),
        state.started(),
        !(operation is ClearScreen),
    ensures
        state.push(operation).shape(),
        state.push(operation).started(),
        state.keeps_colors() && !(operation is SetColors) ==> state.push(operation).keeps_colors(),
{
    assert(state.push(operation) =~= state.extend(seq![operation]));
    lemma_extend(state, seq![operation]);
}

/// The prelude begins a slide.
pub(crate) proof fn lemma_prelude(state: BuilderView)
    requires
        state.shape(),
        state.operations.len() == 0,
    ensures
        state.push_slide_prelude().shape(),
        state.push_slide_prelude().started(),
        state.push_slide_prelude().operations.len() == 4,
        state.keeps_colors() ==> state.push_slide_prelude().keeps_colors(),
{
    let begun = state.push_slide_prelude();
    assert(begun.operations =~= prelude(state.theme));
    assert(begun.operations.take(4) =~= prelude(state.theme));
    assert(begun.operations.skip(4) =~= Seq::empty());
}

/// Closing a slide gives a slide of the right shape, and begins the next.
pub(crate) proof fn lemma_terminate(state: BuilderView, reset: bool)
    requires
        state.shape(),
        state.started(),
    ensures
        state.terminate_slide(reset).shape(),
        state.terminate_slide(reset).started(),
        state.terminate_slide(reset).operations.len() == 4,
        state.terminate_slide(reset).remaining == state.remaining,
        state.terminate_slide(reset).last_element_is_list == state.last_element_is_list,
        state.terminate_slide(reset).slides.len() == state.slides.len() + 1,
        state.keeps_colors() ==> state.terminate_slide(reset).keeps_colors(),
{
    let index = state.slides.len() as usize;
    let end = footer(state.theme, index);
    let slide = state.operations + end;
    let closed = state.terminate_slide(reset);
    assert(closed.slides =~= state.slides.push(slide));
    assert(closed.operations =~= prelude(state.theme));
    assert(closed.operations.take(4) =~= prelude(state.theme));
    assert(closed.operations.skip(4) =~= Seq::empty());
    assert(slide.take(4) =~= state.operations.take(4));
    assert(slide.skip(slide.len() - 4) =~= end);
    assert(slide.skip(4) =~= state.operations.skip(4) + end);
    lemma_quiet_add(state.operations.skip(4), end);
    assert(slide_wf(slide, index));
    assert forall|i: int| 0 <= i < closed.slides.len() implies slide_wf(
        #[trigger] closed.slides[i],
        i as usize,
    ) by {
        if i < state.slides.len() {
            assert(closed.slides[i] == state.slides[i]);
        }
    }
    if state.keeps_colors() {
        assert forall|i: int| 0 <= i < closed.slides.len() implies keeps_colors(
            (#[trigger] closed.slides[i]).skip(4),
        ) by {
            if i < state.slides.len() {
                assert(closed.slides[i] == state.slides[i]);
            }
        }
    }
}

/// A pause keeps the shape of the state.
pub(crate) proof fn lemma_pause(state: BuilderView)
    requires
        state.wf(),
        state.started(),
    ensures
        state.process_pause().shape(),
        state.process_pause().started(),
        state.process_pause().remaining == state.remaining,
        state.keeps_colors() ==> state.process_pause().keeps_colors(),
{
    let kept = state.paused_operations();
    let trimmed = BuilderView { operations: kept, ..state };
    assert(kept.len() >= 4);
    assert(kept.take(4) =~= state.operations.take(4));
    if kept.len() != state.operations.len() {
        assert(kept.skip(4) =~= state.operations.skip(4).drop_last());
    }
    assert(keeps_screen(kept.skip(4))) by {
        assert forall|i: int| 0 <= i < kept.skip(4).len() implies !((#[trigger] kept.skip(4)[i])
            is ClearScreen) by {
            assert(kept.skip(4)[i] == state.operations.skip(4)[i]);
        }
    }
    if state.keeps_colors() {
        assert(keeps_colors(kept.skip(4))) by {
            assert forall|i: int| 0 <= i < kept.skip(4).len() implies !((#[trigger] kept.skip(
                4,
            )[i]) is SetColors) by {
                assert(kept.skip(4)[i] == state.operations.skip(4)[i]);
            }
        }
    }
    lemma_terminate(trimmed, false);
}

/// A command keeps the shape of the state.
pub(crate) proof fn lemma_command(state: BuilderView, command: CommentCommandView)
    requires
        state.wf(),
        state.started(),
        state.apply_command(command) is Ok,
    ensures
        state.apply_command(command)->Ok_0.shape(),
        state.apply_command(command)->Ok_0.started(),
        state.apply_command(command)->Ok_0.remaining == state.remaining,
        state.keeps_colors() ==> state.apply_command(command)->Ok_0.keeps_colors(),
{
    match command {
        CommentCommandView::Pause => {
            lemma_pause(state);
        },
        CommentCommandView::EndSlide => {
            lemma_terminate(state, true);
        },
        CommentCommandView::InitColumnLayout(columns) => {
            lemma_push(state, RenderOperationView::InitColumnLayout { columns });
        },
        CommentCommandView::ResetLayout => {
            lemma_extend(
                state,
                seq![RenderOperationView::ExitLayout, RenderOperationView::RenderLineBreak],
            );
        },
        CommentCommandView::Column(column) => {
            lemma_push(state, RenderOperationView::EnterColumn { column });
        },
    }
}

/// An element keeps the shape of the state; only a block quote sets colors.
pub(crate) proof fn lemma_process_element(state: BuilderView, element: MarkdownElement)
    requires
        state.wf(),
        state.started(),
        state.process_element(element) is Ok,
    ensures
        state.process_element(element)->Ok_0.shape(),
        state.process_element(element)->Ok_0.started(),
        state.process_element(element)->Ok_0.remaining == state.remaining,
        element is List ==> state.process_element(element)->Ok_0.ignore_element_line_break
            == state.ignore_element_line_break,
        state.keeps_colors() && !(element is BlockQuote) ==> state.process_element(element)->Ok_0.keeps_colors(),
{
    reveal(BuilderView::process_element);
    match element {
        MarkdownElement::FrontMatter(_) => {},
        MarkdownElement::SetexHeading { text } => {
            lemma_slide_title_quiet(state.theme, text.deep_view());
            lemma_extend(state, slide_title_operations(state.theme, text.deep_view()));
        },
        MarkdownElement::Heading { level, text } => {
            lemma_heading_quiet(state.theme, level, text.deep_view());
            lemma_extend(state, heading_operations(state.theme, level, text.deep_view()));
        },
        MarkdownElement::Paragraph(elements) => {
            lemma_paragraph_quiet(state.theme, elements@);
            lemma_extend(state, paragraph_operations(state.theme, elements@));
        },
        MarkdownElement::List(items) => {
            lemma_list_quiet(state.theme, items@);
            lemma_extend(state, list_operations(state.theme, items@));
        },
        MarkdownElement::Table(table) => {
            lemma_table_quiet(state.theme, table);
            lemma_extend(state, table_operations(state.theme, table));
        },
        MarkdownElement::ThematicBreak => {
            lemma_extend(state, separator_operations());
        },
        MarkdownElement::Comment(comment) => {
            if !comment@.contains('\n') {
                lemma_command(state, command_of(comment@)->Ok_0);
            }
        },
        MarkdownElement::BlockQuote(lines) => {
            lemma_block_quote_keeps_screen(state.theme, lines.deep_view());
            lemma_extend(state, block_quote_operations(state.theme, lines.deep_view()));
        },
        MarkdownElement::Code(_) => {},
        MarkdownElement::Image(_) => {},
    }
}

/// What follows an element makes the state well formed.
pub(crate) proof fn lemma_settle(state: BuilderView, is_list: bool)
    requires
        state.shape(),
        state.started(),
        is_list ==> !state.ignore_element_line_break,
        state.settle(is_list) is Ok,
    ensures
        state.settle(is_list)->Ok_0.wf(),
        state.settle(is_list)->Ok_0.started(),
        state.settle(is_list)->Ok_0.remaining == state.remaining,
        state.keeps_colors() ==> state.settle(is_list)->Ok_0.keeps_colors(),
{
    reveal(BuilderView::settle);
    let noted = BuilderView { last_element_is_list: is_list, ..state };
    let checked = noted.validate_last_operation()->Ok_0;
    assert(checked.shape());
    if !checked.ignore_element_line_break {
        lemma_push(checked, RenderOperationView::RenderLineBreak);
    }
}

/// Every step of the build of the slides is well formed; and where no slide
/// set the colors after its prelude so far and no block quote is still to be
/// built, none does so afterwards.
pub proof fn lemma_run(state: BuilderView)
    requires
        state.wf(),
        state.started(),
    ensures
        state.run().wf(),
        state.keeps_colors() && no_block_quotes(state.remaining) ==> state.run().keeps_colors()
            && state.run().no_block_quotes(),
    decreases state.remaining.len(), 0nat,
{
    if state.remaining.len() == 0 {
        lemma_terminate(state, true);
    } else {
        let element = state.remaining[0];
        let rest = state.remaining.drop_first();
        let next = BuilderView { remaining: rest, ignore_element_line_break: false, ..state };
        assert(all_valid(rest)) by {
            assert forall|i: int| 0 <= i < rest.len() implies (#[trigger] rest[i]).valid() by {
                assert(rest[i] == state.remaining[i + 1]);
            }
        }
        if no_block_quotes(state.remaining) {
            assert(no_block_quotes(rest)) by {
                assert forall|i: int| 0 <= i < rest.len() implies !((#[trigger] rest[i])
                    is BlockQuote) by {
                    assert(rest[i] == state.remaining[i + 1]);
                }
            }
        }
        match element {
            MarkdownElement::Code(_) => {},
            MarkdownElement::Image(_) => {},
            _ => {
                if next.process_element(element) is Ok {
                    lemma_process_element(next, element);
                    let processed = next.process_element(element)->Ok_0;
                    assert(processed =~= (BuilderView { remaining: rest, ..processed }));
                    lemma_proceed(processed, element is List);
                }
            },
        }
    }
}

/// Every step of the build is well formed also from the state after an
/// element was turned into instructions; and no slide sets the colors after
/// its prelude, where none did so far and no block quote is still to be built.
pub proof fn lemma_proceed(state: BuilderView, is_list: bool)
    requires
        state.shape(),
        state.started(),
        is_list ==> !state.ignore_element_line_break,
    ensures
        state.proceed(is_list).wf(),
        state.keeps_colors() && no_block_quotes(state.remaining) ==> state.proceed(
            is_list,
        ).keeps_colors() && state.proceed(is_list).no_block_quotes(),
    decreases state.remaining.len(), 1nat,
{
    if state.settle(is_list) is Ok {
        lemma_settle(state, is_list);
        let settled = state.settle(is_list)->Ok_0;
        assert(settled =~= (BuilderView { remaining: state.remaining, ..settled }));
        lemma_run(settled);
    }
}


/// The build of the slides is well formed from its first step on.
pub(crate) proof fn lemma_slides_stage(state: BuilderView)
    requires
        state.wf(),
    ensures
        state.slides_stage().wf(),
        state.keeps_colors() && no_block_quotes(state.remaining) ==> state.slides_stage().keeps_colors()
            && state.slides_stage().no_block_quotes(),
{
    if state.operations.len() == 0 {
        lemma_prelude(state);
        lemma_run(state.push_slide_prelude());
    } else {
        lemma_run(state);
    }
}

pub(crate) proof fn lemma_code_theme_stage(state: BuilderView)
    requires
        state.wf(),
    ensures
        state.code_theme_stage().wf(),
        state.keeps_colors() && no_block_quotes(state.remaining) ==> state.code_theme_stage().keeps_colors()
            && state.code_theme_stage().no_block_quotes(),
{
    lemma_slides_stage(state);
}

pub(crate) proof fn lemma_intro_stage(state: BuilderView)
    requires
        state.wf(),
        state.operations.len() == 0,
    ensures
        state.intro_stage().wf(),
        state.keeps_colors() && no_block_quotes(state.remaining) ==> state.intro_stage().keeps_colors()
            && state.intro_stage().no_block_quotes(),
{
    if state.metadata.has_intro() {
        lemma_prelude(state);
        let begun = state.push_slide_prelude();
        lemma_intro_quiet(state.theme, state.metadata);
        lemma_extend(begun, intro_operations(state.theme, state.metadata));
        let drawn = begun.extend(intro_operations(state.theme, state.metadata));
        lemma_terminate(drawn, true);
        lemma_code_theme_stage(drawn.terminate_slide(true));
    } else {
        lemma_code_theme_stage(state);
    }
}

pub(crate) proof fn lemma_overrides_stage(state: BuilderView)
    requires
        state.wf(),
        state.operations.len() == 0,
    ensures
        state.overrides_stage().wf(),
        state.keeps_colors() && no_block_quotes(state.remaining) ==> state.overrides_stage().keeps_colors()
            && state.overrides_stage().no_block_quotes(),
{
    lemma_intro_stage(state);
}

pub(crate) proof fn lemma_theme_file_stage(state: BuilderView)
    requires
        state.wf(),
        state.operations.len() == 0,
    ensures
        state.theme_file_stage().wf(),
        state.keeps_colors() && no_block_quotes(state.remaining) ==> state.theme_file_stage().keeps_colors()
            && state.theme_file_stage().no_block_quotes(),
{
    lemma_overrides_stage(state);
}

pub(crate) proof fn lemma_theme_name_stage(state: BuilderView)
    requires
        state.wf(),
        state.operations.len() == 0,
    ensures
        state.theme_name_stage().wf(),
        state.keeps_colors() && no_block_quotes(state.remaining) ==> state.theme_name_stage().keeps_colors()
            && state.theme_name_stage().no_block_quotes(),
{
    lemma_theme_file_stage(state);
}

/// Every slide of a presentation has the shape of a slide: whatever the
/// elements and whatever the answers, every step of a build is well formed.
/// And where the document holds no block quote, no slide sets the colors
/// after its prelude.
pub proof fn lemma_start(state: BuilderView, elements: Seq<MarkdownElement>)
    requires
        state.fresh(),
        all_valid(elements),
    ensures
        state.start(elements).wf(),
        no_block_quotes(elements) ==> state.start(elements).keeps_colors() && state.start(
            elements,
        ).no_block_quotes(),
{
    let fed = BuilderView { remaining: elements, ..state };
    assert(fed.wf());
    assert(fed.keeps_colors());
    if elements.len() > 0 && crate::model::front_matter_of(elements[0]) is Some {
        let parsed = crate::metadata::metadata_of(crate::model::front_matter_of(elements[0])->Some_0);
        if parsed is Ok {
            let metadata = parsed->Ok_0;
            let named = BuilderView {
                author: crate::model::text_or_empty(metadata.author),
                metadata,
                ..fed
            };
            lemma_theme_name_stage(named);
        }
    } else {
        lemma_code_theme_stage(fed);
    }
}

/// Whatever the outside answers, the next step of a build is well formed; and
/// where no slide set the colors after its prelude so far and no block quote
/// is still to be built, none does so afterwards.
pub proof fn lemma_resume(state: BuilderView, request: RequestView, answer: BuildAnswer)
    requires
        state.wf(),
        request.fits(state),
    ensures
        state.resume(request, answer).wf(),
        state.keeps_colors() && no_block_quotes(state.remaining) ==> state.resume(
            request,
            answer,
        ).keeps_colors() && state.resume(request, answer).no_block_quotes(),
{
    match (request, answer) {
        (RequestView::NamedTheme { .. }, BuildAnswer::NamedTheme(found)) => {
            if found is Some {
                lemma_theme_file_stage(state.with_theme(found->Some_0));
            }
        },
        (RequestView::ThemeFile { .. }, BuildAnswer::ThemeFile(loaded)) => {
            if loaded is Ok {
                lemma_overrides_stage(state.with_theme(loaded->Ok_0));
            }
        },
        (RequestView::ThemeOverrides { .. }, BuildAnswer::ThemeOverrides(merged)) => {
            if merged is Ok {
                lemma_intro_stage(state.with_theme(merged->Ok_0));
            }
        },
        (RequestView::CodeTheme { .. }, BuildAnswer::CodeTheme(known)) => {
            if known {
                lemma_slides_stage(state);
            }
        },
        (RequestView::Highlight { .. }, BuildAnswer::Highlight(lines)) => {
            if crate::model::highlight_acceptable(
                state.code_width,
                crate::model::horizontal_padding(state.theme),
                lines.deep_view(),
            ) {
                let drawn = code_operations(
                    lines.deep_view(),
                    crate::model::code_block_length(
                        state.code_width,
                        crate::model::horizontal_padding(state.theme),
                    ) as usize,
                    state.theme.alignment_of(ElementType::Code),
                );
                lemma_code_quiet(
                    lines.deep_view(),
                    crate::model::code_block_length(
                        state.code_width,
                        crate::model::horizontal_padding(state.theme),
                    ) as usize,
                    state.theme.alignment_of(ElementType::Code),
                );
                lemma_extend(state, drawn);
                lemma_proceed(state.push_code(lines.deep_view()), false);
            }
        },
        (RequestView::Image { .. }, BuildAnswer::Image(loaded)) => {
            if loaded is Ok {
                lemma_push(state, RenderOperationView::RenderImage(loaded->Ok_0));
                lemma_proceed(state.push_image(loaded->Ok_0), false);
            }
        },
        _ => {},
    }
}

/// A slide of the right shape clears the screen exactly once.
pub proof fn lemma_one_clear_screen(slide: Seq<RenderOperationView>, index: usize)
    requires
        slide_wf(slide, index),
    ensures
        clear_screens(slide) == 1,
{
    let wanted = |operation: RenderOperationView| operation is ClearScreen;
    let start = slide.take(4);
    let rest = slide.skip(4);
    assert(slide =~= start + rest);
    lemma_count_add(start, rest, wanted);
    lemma_count_none(rest, wanted);
    lemma_count_prelude(start);
}

/// A slide of the right shape that does not set the colors after its prelude
/// sets them exactly once.
pub proof fn lemma_one_color_set(slide: Seq<RenderOperationView>, index: usize)
    requires
        slide_wf(slide, index),
        keeps_colors(slide.skip(4)),
    ensures
        color_sets(slide) == 1,
{
    let wanted = |operation: RenderOperationView| operation is SetColors;
    let start = slide.take(4);
    let rest = slide.skip(4);
    assert(slide =~= start + rest);
    lemma_count_add(start, rest, wanted);
    lemma_count_none(rest, wanted);
    lemma_count_prelude(start);
}

proof fn lemma_count_add(
    first: Seq<RenderOperationView>,
    second: Seq<RenderOperationView>,
    wanted: spec_fn(RenderOperationView) -> bool,
)
    ensures
        count_where(first + second, wanted) == count_where(first, wanted) + count_where(
            second,
            wanted,
        ),
    decreases second.len(),
{
    if second.len() == 0 {
        assert(first + second =~= first);
    } else {
        assert((first + second).drop_last() =~= first + second.drop_last());
        lemma_count_add(first, second.drop_last(), wanted);
    }
}

proof fn lemma_count_none(
    operations: Seq<RenderOperationView>,
    wanted: spec_fn(RenderOperationView) -> bool,
)
    requires
        forall|i: int| 0 <= i < operations.len() ==> !wanted(#[trigger] operations[i]),
    ensures
        count_where(operations, wanted) == 0,
    decreases operations.len(),
{
    if operations.len() > 0 {
        assert(!wanted(operations[operations.len() - 1]));
        lemma_count_none(operations.drop_last(), wanted);
    }
}

proof fn lemma_count_prelude(start: Seq<RenderOperationView>)
    requires
        is_prelude(start),
    ensures
        count_where(start, |operation: RenderOperationView| operation is ClearScreen) == 1,
        count_where(start, |operation: RenderOperationView| operation is SetColors) == 1,
{
    reveal_with_fuel(count_where, 5);
    let three = start.drop_last();
    let two = three.drop_last();
    let one = two.drop_last();
    assert(one.drop_last().len() == 0);
    assert(three.last() == start[2]);
    assert(two.last() == start[1]);
    assert(one.last() == start[0]);
}


/// The command to enter a column fails without a layout, for the column that
/// is entered already, and for a column that the layout does not have, in
/// that order; otherwise it enters the column, and nothing else changes but
/// that no line break follows the comment.
pub proof fn lemma_column_command(state: BuilderView, comment: Seq<char>, column: usize)
    requires
        !comment.contains('\n'),
        command_of(comment) == Ok::<CommentCommandView, crate::command::CommandProblem>(
            CommentCommandView::Column(column),
        ),
    ensures
        state.process_comment(comment) == match state.layout {
            LayoutState::Default => Err::<BuilderView, BuildErrorView>(BuildErrorView::NoLayout),
            LayoutState::InLayout { columns_count } => if column >= columns_count {
                Err(BuildErrorView::ColumnIndexTooLarge)
            } else {
                Ok(
                    BuilderView {
                        layout: LayoutState::InColumn { column, columns_count },
                        ignore_element_line_break: true,
                        ..state.push(RenderOperationView::EnterColumn { column })
                    },
                )
            },
            LayoutState::InColumn { column: current, columns_count } => if current == column {
                Err(BuildErrorView::AlreadyInColumn)
            } else if column >= columns_count {
                Err(BuildErrorView::ColumnIndexTooLarge)
            } else {
                Ok(
                    BuilderView {
                        layout: LayoutState::InColumn { column, columns_count },
                        ignore_element_line_break: true,
                        ..state.push(RenderOperationView::EnterColumn { column })
                    },
                )
            },
        },
{
}

/// The command to set up a layout fails for no columns and for a column of
/// width zero; otherwise the layout has as many columns as widths were given,
/// none of them entered, and the instruction that follows has to enter one.
pub proof fn lemma_layout_command(state: BuilderView, comment: Seq<char>, columns: Seq<u8>)
    requires
        !comment.contains('\n'),
        command_of(comment) == Ok::<CommentCommandView, crate::command::CommandProblem>(
            CommentCommandView::InitColumnLayout(columns),
        ),
    ensures
        (columns.len() == 0 || exists|i: int| 0 <= i < columns.len() && columns[i] == 0)
            ==> state.process_comment(comment) matches Err(BuildErrorView::InvalidLayout(_)),
        !(columns.len() == 0 || exists|i: int| 0 <= i < columns.len() && columns[i] == 0)
            ==> state.process_comment(comment) == Ok::<BuilderView, BuildErrorView>(
            BuilderView {
                layout: LayoutState::InLayout { columns_count: columns.len() as usize },
                column_mark: Some((state.operations.len() + 1) as usize),
                ignore_element_line_break: true,
                ..state.push(RenderOperationView::InitColumnLayout { columns })
            },
        ),
{
}

/// A pause closes the slide at hand with all that it shows and its footer, and
/// the next slide starts with all that it shows, without a footer or a second
/// prelude. The slides before, the layout and what is still to be checked of
/// it stay as they are.
pub proof fn lemma_pause_replays(state: BuilderView)
    ensures
        state.process_pause().operations == state.paused_operations(),
        state.process_pause().slides == state.slides.push(
            state.paused_operations() + footer(state.theme, state.slides.len() as usize),
        ),
        state.process_pause().layout == state.layout,
        state.process_pause().column_mark == state.column_mark,
        state.process_pause().remaining == state.remaining,
        state.process_pause().theme == state.theme,
{
}

} // verus!
