//! Builds of documents whose elements all open with content: in every slide,
//! something other than a line break follows the prelude.
use crate::builder::BuildAnswer;
use crate::command::command_of;
use crate::command::CommentCommandView;
use crate::elements::all_valid;
use crate::elements::MarkdownElement;
use crate::laws::lemma_code_quiet;
use crate::laws::lemma_extend;
use crate::laws::lemma_intro_quiet;
use crate::laws::lemma_prelude;
use crate::laws::lemma_process_element;
use crate::laws::lemma_settle;
use crate::laws::lemma_terminate;
use crate::leading::lemma_footer_leads;
use crate::leading::lemma_leads_add;
use crate::leading::lemma_leads_front;
use crate::leading::lemma_visible_add;
use crate::leading::lemma_visible_empty;
use crate::leading::lemma_visible_first;
use crate::metadata::MetadataView;
use crate::model::open_in_turn;
use crate::model::shows_after;
use crate::model::block_quote_operations;
use crate::model::code_operations;
use crate::model::footer;
use crate::model::heading_operations;
use crate::model::intro_operations;
use crate::model::leads;
use crate::model::list_operations;
use crate::model::opens;
use crate::model::paragraph_operations;
use crate::model::prelude;
use crate::model::separator_operations;
use crate::model::slide_title_operations;
use crate::model::table_operations;
use crate::model::visible;
use crate::model::BuilderView;
use crate::model::CodeLineView;
use crate::model::RequestView;
use crate::presentation::RenderOperationView;
use crate::theme::Alignment;
use crate::theme::ElementType;
use crate::theme::PresentationTheme;
use vstd::prelude::*;

verus! {

/// What ends in a line break shows something.
proof fn lemma_break_shows(operations: Seq<RenderOperationView>)
    ensures
        visible(operations.push(RenderOperationView::RenderLineBreak)).len() > 0,
{
    let line_break = RenderOperationView::RenderLineBreak;
    assert(operations.push(line_break) =~= operations + seq![line_break]);
    lemma_visible_add(operations, seq![line_break]);
    lemma_visible_first(line_break, Seq::empty());
    lemma_visible_empty();
    assert(seq![line_break] + Seq::empty() =~= seq![line_break]);
}

/// An instruction that is not visible shows nothing.
proof fn lemma_hidden_shows_nothing(operation: RenderOperationView)
    requires
        !operation.is_visible(),
    ensures
        visible(seq![operation]).len() == 0,
        leads(seq![operation]),
{
    lemma_visible_first(operation, Seq::empty());
    lemma_visible_empty();
    assert(seq![operation] + Seq::empty() =~= seq![operation]);
}

/// More instructions keep the slide at hand going on with content, where it
/// shows something already or where they begin with content; and the slide
/// shows something then if it did or if they do.
pub(crate) proof fn lemma_extend_leads(state: BuilderView, operations: Seq<RenderOperationView>)
    requires
        state.started(),
        state.leads(),
        state.shows() || leads(operations),
    ensures
        state.extend(operations).leads(),
        state.extend(operations).shows() == (state.shows() || visible(operations).len() > 0),
{
    let extended = state.operations + operations;
    assert(extended.skip(4) =~= state.operations.skip(4) + operations);
    lemma_visible_add(state.operations.skip(4), operations);
}

pub(crate) proof fn lemma_prelude_leads(state: BuilderView)
    requires
        state.operations.len() == 0,
        state.leads(),
    ensures
        state.push_slide_prelude().leads(),
        !state.push_slide_prelude().shows(),
{
    let begun = state.push_slide_prelude();
    assert(begun.operations =~= prelude(state.theme));
    assert(begun.operations.skip(4) =~= Seq::empty());
    lemma_visible_empty();
}

pub(crate) proof fn lemma_terminate_leads(state: BuilderView, reset: bool)
    requires
        state.started(),
        state.leads(),
    ensures
        state.terminate_slide(reset).leads(),
        !state.terminate_slide(reset).shows(),
{
    let index = state.slides.len() as usize;
    let end = footer(state.theme, index);
    let slide = state.operations + end;
    let closed = state.terminate_slide(reset);
    assert(closed.slides =~= state.slides.push(slide));
    assert(closed.operations =~= prelude(state.theme));
    assert(closed.operations.skip(4) =~= Seq::empty());
    lemma_visible_empty();
    assert(slide.skip(4) =~= state.operations.skip(4) + end);
    lemma_footer_leads(state.theme, index);
    lemma_leads_add(state.operations.skip(4), end);
    assert forall|i: int| 0 <= i < closed.slides.len() implies leads(
        (#[trigger] closed.slides[i]).skip(4),
    ) by {
        if i < state.slides.len() {
            assert(closed.slides[i] == state.slides[i]);
        }
    }
}

pub(crate) proof fn lemma_pause_leads(state: BuilderView)
    requires
        state.wf(),
        state.started(),
        state.leads(),
    ensures
        state.process_pause().leads(),
        state.process_pause().shows() == state.shows(),
{
    let kept = state.paused_operations();
    let trimmed = BuilderView { operations: kept, ..state };
    if kept.len() != state.operations.len() {
        let line_break = RenderOperationView::RenderLineBreak;
        assert(state.operations.last() == line_break);
        assert(state.operations.skip(4) =~= kept.skip(4) + seq![line_break]);
        lemma_leads_front(kept.skip(4), seq![line_break]);
        lemma_visible_add(kept.skip(4), seq![line_break]);
        lemma_visible_first(line_break, Seq::empty());
        lemma_visible_empty();
        assert(seq![line_break] + Seq::empty() =~= seq![line_break]);
        assert(visible(kept.skip(4)).len() > 0);
    }
    lemma_terminate_leads(trimmed, false);
}

/// The first line of a block of code is drawn first.
pub(crate) proof fn lemma_code_leads(lines: Seq<CodeLineView>, block_length: usize, alignment: Alignment)
    requires
        lines.len() > 0,
    ensures
        code_operations(lines, block_length, alignment).len() >= 2,
        code_operations(lines, block_length, alignment)[0] is RenderPreformattedLine,
        leads(code_operations(lines, block_length, alignment)),
        visible(code_operations(lines, block_length, alignment)).len() > 0,
    decreases lines.len(),
{
    let drawn = code_operations(lines, block_length, alignment);
    if lines.len() > 1 {
        lemma_code_leads(lines.drop_last(), block_length, alignment);
    } else {
        assert(code_operations(lines.drop_last(), block_length, alignment).len() == 0);
    }
    assert(drawn =~= seq![drawn[0]] + drawn.drop_first());
    lemma_visible_first(drawn[0], drawn.drop_first());
}

pub(crate) proof fn lemma_intro_leads(theme: PresentationTheme, metadata: MetadataView)
    ensures
        leads(intro_operations(theme, metadata)),
{
    let drawn = intro_operations(theme, metadata);
    assert(drawn[0] == RenderOperationView::JumpToVerticalCenter);
    assert(drawn[1] is RenderTextLine);
    let rest = drawn.drop_first();
    assert(drawn =~= seq![drawn[0]] + rest);
    lemma_visible_first(drawn[0], rest);
    assert(rest =~= seq![drawn[1]] + rest.drop_first());
    lemma_visible_first(drawn[1], rest.drop_first());
}

/// The instructions of an element that is neither a comment nor comes from
/// the outside.
pub open spec fn element_operations(theme: PresentationTheme, element: MarkdownElement) -> Seq<
    RenderOperationView,
> {
    match element {
        MarkdownElement::SetexHeading { text } => slide_title_operations(theme, text.deep_view()),
        MarkdownElement::Heading { level, text } => heading_operations(
            theme,
            level,
            text.deep_view(),
        ),
        MarkdownElement::Paragraph(elements) => paragraph_operations(theme, elements@),
        MarkdownElement::List(items) => list_operations(theme, items@),
        MarkdownElement::Table(table) => table_operations(theme, table),
        MarkdownElement::ThematicBreak => separator_operations(),
        MarkdownElement::BlockQuote(lines) => block_quote_operations(theme, lines.deep_view()),
        _ => Seq::empty(),
    }
}

/// Whether an element is drawn by its own instructions alone.
pub open spec fn is_drawn(element: MarkdownElement) -> bool {
    match element {
        MarkdownElement::SetexHeading { .. } => true,
        MarkdownElement::Heading { .. } => true,
        MarkdownElement::Paragraph(_) => true,
        MarkdownElement::List(_) => true,
        MarkdownElement::Table(_) => true,
        MarkdownElement::ThematicBreak => true,
        MarkdownElement::BlockQuote(_) => true,
        _ => false,
    }
}

/// An element that is drawn adds its instructions and changes nothing else,
/// but that the title of a slide is followed by no line break.
proof fn lemma_process_drawn(state: BuilderView, element: MarkdownElement)
    requires
        is_drawn(element),
    ensures
        state.process_element(element) == Ok::<BuilderView, crate::error::BuildErrorView>(
            BuilderView {
                ignore_element_line_break: state.ignore_element_line_break
                    || element is SetexHeading,
                ..state.extend(element_operations(state.theme, element))
            },
        ),
{
    reveal(BuilderView::process_element);
}

proof fn lemma_process_other(state: BuilderView, element: MarkdownElement)
    requires
        !is_drawn(element),
    ensures
        element is FrontMatter ==> state.process_element(element) == Ok::<
            BuilderView,
            crate::error::BuildErrorView,
        >(BuilderView { ignore_element_line_break: true, ..state }),
        element matches MarkdownElement::Comment(comment) ==> state.process_element(element)
            == state.process_comment(comment@),
{
    reveal(BuilderView::process_element);
}

/// What follows an element adds a line break, unless the element asked for
/// none, and changes neither the slides nor the theme.
proof fn lemma_settle_operations(state: BuilderView, is_list: bool)
    requires
        state.settle(is_list) is Ok,
    ensures
        (state.settle(is_list)->Ok_0).operations == if state.ignore_element_line_break {
            state.operations
        } else {
            state.operations.push(RenderOperationView::RenderLineBreak)
        },
        (state.settle(is_list)->Ok_0).slides == state.slides,
        (state.settle(is_list)->Ok_0).theme == state.theme,
{
    reveal(BuilderView::settle);
}

/// A command keeps the slides going on with content; the command to leave
/// the layout does so where the slide at hand shows something already.
proof fn lemma_command_leads(state: BuilderView, command: CommentCommandView)
    requires
        state.wf(),
        state.started(),
        state.leads(),
        state.shows() || command != CommentCommandView::ResetLayout,
        state.apply_command(command) is Ok,
    ensures
        (state.apply_command(command)->Ok_0).leads(),
        (state.apply_command(command)->Ok_0).theme == state.theme,
        (state.apply_command(command)->Ok_0).shows() == match command {
            CommentCommandView::EndSlide => false,
            CommentCommandView::ResetLayout => true,
            _ => state.shows(),
        },
{
    match command {
        CommentCommandView::Pause => {
            lemma_pause_leads(state);
        },
        CommentCommandView::EndSlide => {
            lemma_terminate_leads(state, true);
        },
        CommentCommandView::InitColumnLayout(columns) => {
            let operation = RenderOperationView::InitColumnLayout { columns };
            lemma_hidden_shows_nothing(operation);
            assert(state.push(operation) =~= state.extend(seq![operation]));
            lemma_extend_leads(state, seq![operation]);
        },
        CommentCommandView::ResetLayout => {
            let left = seq![RenderOperationView::ExitLayout];
            let drawn = left.push(RenderOperationView::RenderLineBreak);
            assert(drawn =~= seq![
                RenderOperationView::ExitLayout,
                RenderOperationView::RenderLineBreak,
            ]);
            lemma_break_shows(left);
            lemma_extend_leads(state, drawn);
        },
        CommentCommandView::Column(column) => {
            let operation = RenderOperationView::EnterColumn { column };
            lemma_hidden_shows_nothing(operation);
            assert(state.push(operation) =~= state.extend(seq![operation]));
            lemma_extend_leads(state, seq![operation]);
        },
    }
}

/// An element, and what follows it, keep the slide at hand going on with
/// content after its prelude, where the slide shows something already or
/// where the element opens with content.
proof fn lemma_element_leads(state: BuilderView, element: MarkdownElement)
    requires
        state.wf(),
        state.started(),
        state.leads(),
        !state.ignore_element_line_break,
        state.shows() || opens(state.theme, element),
        !(element is Code),
        !(element is Image),
        state.process_element(element) is Ok,
        (state.process_element(element)->Ok_0).settle(element is List) is Ok,
    ensures
        ((state.process_element(element)->Ok_0).settle(element is List)->Ok_0).leads(),
        ((state.process_element(element)->Ok_0).settle(element is List)->Ok_0).theme == state.theme,
        ((state.process_element(element)->Ok_0).settle(element is List)->Ok_0).shows()
            == shows_after(state.shows(), element),
{
    let processed = state.process_element(element)->Ok_0;
    let settled = processed.settle(element is List)->Ok_0;
    let line_break = RenderOperationView::RenderLineBreak;
    lemma_settle_operations(processed, element is List);
    if is_drawn(element) {
        lemma_process_drawn(state, element);
        let drawn = element_operations(state.theme, element);
        if element is SetexHeading {
            assert(drawn.len() > 0 && drawn.last() == line_break);
            assert(drawn =~= drawn.drop_last().push(line_break));
            lemma_break_shows(drawn.drop_last());
            lemma_extend_leads(state, drawn);
        } else {
            assert(settled.operations =~= state.operations + drawn.push(line_break));
            if element is ThematicBreak {
                assert(drawn.push(line_break) =~= seq![drawn[0]] + drawn.push(line_break).drop_first());
                lemma_visible_first(drawn[0], drawn.push(line_break).drop_first());
            }
            lemma_break_shows(drawn);
            lemma_extend_leads(state, drawn.push(line_break));
        }
    } else {
        lemma_process_other(state, element);
        match element {
            MarkdownElement::Comment(comment) => {
                if comment@.contains('\n') {
                    let nothing = Seq::<RenderOperationView>::empty();
                    assert(settled.operations =~= state.operations + nothing.push(line_break));
                    lemma_break_shows(nothing);
                    lemma_extend_leads(state, nothing.push(line_break));
                } else {
                    lemma_command_leads(state, command_of(comment@)->Ok_0);
                }
            },
            _ => {},
        }
    }
}

/// Of the elements that are still to be built, let every one that is the
/// first to show something in its slide open with content. Then the build of
/// the slides keeps every slide going on with content after its prelude.
pub proof fn lemma_run_leads(state: BuilderView)
    requires
        state.wf(),
        state.started(),
        state.leads(),
        open_in_turn(state.theme, state.shows(), state.remaining),
    ensures
        state.run().leads(),
    decreases state.remaining.len(), 0nat,
{
    if state.remaining.len() == 0 {
        lemma_terminate_leads(state, true);
    } else {
        let element = state.remaining[0];
        let rest = state.remaining.drop_first();
        let next = BuilderView { remaining: rest, ignore_element_line_break: false, ..state };
        assert(all_valid(rest)) by {
            assert forall|i: int| 0 <= i < rest.len() implies (#[trigger] rest[i]).valid() by {
                assert(rest[i] == state.remaining[i + 1]);
            }
        }
        assert(next.operations == state.operations);
        match element {
            MarkdownElement::Code(_) => {},
            MarkdownElement::Image(_) => {},
            _ => {
                if next.process_element(element) is Ok {
                    lemma_process_element(next, element);
                    let processed = next.process_element(element)->Ok_0;
                    assert(processed =~= (BuilderView { remaining: rest, ..processed }));
                    if processed.settle(element is List) is Ok {
                        lemma_element_leads(next, element);
                    }
                    lemma_proceed_leads(processed, element is List, state.theme);
                }
            },
        }
    }
}

/// The same from the state after an element was turned into instructions,
/// where what follows the element leaves the slides going on with content.
pub proof fn lemma_proceed_leads(state: BuilderView, is_list: bool, theme: PresentationTheme)
    requires
        state.shape(),
        state.started(),
        is_list ==> !state.ignore_element_line_break,
        state.settle(is_list) is Ok ==> {
            &&& (state.settle(is_list)->Ok_0).leads()
            &&& (state.settle(is_list)->Ok_0).theme == theme
            &&& open_in_turn(theme, (state.settle(is_list)->Ok_0).shows(), state.remaining)
        },
    ensures
        state.proceed(is_list).leads(),
    decreases state.remaining.len(), 1nat,
{
    if state.settle(is_list) is Ok {
        lemma_settle(state, is_list);
        let settled = state.settle(is_list)->Ok_0;
        assert(settled =~= (BuilderView { remaining: state.remaining, ..settled }));
        lemma_run_leads(settled);
    }
}

proof fn lemma_slides_stage_leads(state: BuilderView)
    requires
        state.wf(),
        state.leads(),
        open_in_turn(state.theme, state.shows(), state.remaining),
    ensures
        state.slides_stage().leads(),
        state.code_theme_stage().leads(),
{
    if state.operations.len() == 0 {
        lemma_prelude(state);
        lemma_prelude_leads(state);
        lemma_run_leads(state.push_slide_prelude());
    } else {
        lemma_run_leads(state);
    }
}

/// The stages before the slides keep the build going on with content.
proof fn lemma_stages_lead(state: BuilderView)
    requires
        state.wf(),
        state.operations.len() == 0,
        state.leads(),
        open_in_turn(state.theme, false, state.remaining),
    ensures
        state.intro_stage().leads(),
        state.overrides_stage().leads(),
        state.theme_file_stage().leads(),
        state.theme_name_stage().leads(),
{
    if state.metadata.has_intro() {
        lemma_prelude(state);
        lemma_prelude_leads(state);
        let begun = state.push_slide_prelude();
        let drawn = intro_operations(state.theme, state.metadata);
        lemma_intro_quiet(state.theme, state.metadata);
        lemma_intro_leads(state.theme, state.metadata);
        lemma_extend(begun, drawn);
        lemma_extend_leads(begun, drawn);
        lemma_terminate(begun.extend(drawn), true);
        lemma_terminate_leads(begun.extend(drawn), true);
        lemma_slides_stage_leads(begun.extend(drawn).terminate_slide(true));
    } else {
        lemma_slides_stage_leads(state);
    }
}

/// In a build from the start, let every element that is the first to show
/// something in its slide open with content. Then every slide goes on with
/// content after its prelude, up to the first request or to the end.
pub proof fn lemma_start_leads(state: BuilderView, elements: Seq<MarkdownElement>)
    requires
        state.fresh(),
        all_valid(elements),
        open_in_turn(state.theme, false, elements),
    ensures
        state.start(elements).leads(),
{
    let fed = BuilderView { remaining: elements, ..state };
    assert(fed.wf());
    assert(fed.leads());
    if elements.len() > 0 && crate::model::front_matter_of(elements[0]) is Some {
        let parsed = crate::metadata::metadata_of(crate::model::front_matter_of(elements[0])->Some_0);
        if parsed is Ok {
            let metadata = parsed->Ok_0;
            let named = BuilderView {
                author: crate::model::text_or_empty(metadata.author),
                metadata,
                ..fed
            };
            lemma_stages_lead(named);
        }
    } else {
        lemma_slides_stage_leads(fed);
    }
}

/// What was drawn for an answer, and the line break that follows it, keep the
/// slide at hand going on with content.
proof fn lemma_answer_leads(state: BuilderView, drawn: Seq<RenderOperationView>)
    requires
        state.wf(),
        state.started(),
        state.leads(),
        !state.ignore_element_line_break,
        open_in_turn(state.theme, true, state.remaining),
        crate::model::keeps_screen(drawn),
        state.shows() || leads(drawn.push(RenderOperationView::RenderLineBreak)),
    ensures
        state.extend(drawn).proceed(false).leads(),
{
    let line_break = RenderOperationView::RenderLineBreak;
    let pushed = state.extend(drawn);
    lemma_extend(state, drawn);
    if pushed.settle(false) is Ok {
        lemma_settle_operations(pushed, false);
        let settled = pushed.settle(false)->Ok_0;
        assert(settled.operations =~= state.operations + drawn.push(line_break));
        lemma_break_shows(drawn);
        lemma_extend_leads(state, drawn.push(line_break));
    }
    lemma_proceed_leads(pushed, false, state.theme);
}

/// The build goes on with content when the outside answers: with a theme that
/// an answer brings, and after it, every element that is the first to show
/// something in its slide has to open with content, and highlighted code
/// that is the first to show something has to have a line.
pub proof fn lemma_resume_leads(state: BuilderView, request: RequestView, answer: BuildAnswer)
    requires
        state.wf(),
        request.fits(state),
        state.leads(),
        state.opens_after(request, answer),
    ensures
        state.resume(request, answer).leads(),
{
    let line_break = RenderOperationView::RenderLineBreak;
    match (request, answer) {
        (RequestView::NamedTheme { .. }, BuildAnswer::NamedTheme(found)) => {
            if found is Some {
                lemma_stages_lead(state.with_theme(found->Some_0));
            }
        },
        (RequestView::ThemeFile { .. }, BuildAnswer::ThemeFile(loaded)) => {
            if loaded is Ok {
                lemma_stages_lead(state.with_theme(loaded->Ok_0));
            }
        },
        (RequestView::ThemeOverrides { .. }, BuildAnswer::ThemeOverrides(merged)) => {
            if merged is Ok {
                lemma_stages_lead(state.with_theme(merged->Ok_0));
            }
        },
        (RequestView::CodeTheme { .. }, BuildAnswer::CodeTheme(known)) => {
            if known {
                lemma_slides_stage_leads(state);
            }
        },
        (RequestView::Highlight { .. }, BuildAnswer::Highlight(lines)) => {
            if crate::model::highlight_acceptable(
                state.code_width,
                crate::model::horizontal_padding(state.theme),
                lines.deep_view(),
            ) {
                let block = crate::model::code_block_length(
                    state.code_width,
                    crate::model::horizontal_padding(state.theme),
                ) as usize;
                let alignment = state.theme.alignment_of(ElementType::Code);
                let drawn = code_operations(lines.deep_view(), block, alignment);
                lemma_code_quiet(lines.deep_view(), block, alignment);
                if lines@.len() > 0 {
                    lemma_code_leads(lines.deep_view(), block, alignment);
                    assert(drawn.push(line_break) =~= drawn + seq![line_break]);
                    lemma_leads_after(drawn, seq![line_break]);
                }
                lemma_answer_leads(state, drawn);
            }
        },
        (RequestView::Image { .. }, BuildAnswer::Image(loaded)) => {
            if loaded is Ok {
                let image = RenderOperationView::RenderImage(loaded->Ok_0);
                let drawn = seq![image];
                assert(drawn.push(line_break) =~= drawn + seq![line_break]);
                lemma_visible_first(image, seq![line_break]);
                assert(state.push_image(loaded->Ok_0) =~= state.extend(drawn));
                lemma_answer_leads(state, drawn);
            }
        },
        _ => {},
    }
}

/// What begins with something visible that is no line break goes on leading
/// with content, whatever follows.
proof fn lemma_leads_after(first: Seq<RenderOperationView>, second: Seq<RenderOperationView>)
    requires
        leads(first),
        visible(first).len() > 0,
    ensures
        leads(first + second),
{
    lemma_visible_add(first, second);
}

} // verus!
