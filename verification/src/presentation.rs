//! A compiled presentation: slides made of draw instructions, and the cursor
//! that says which slide is shown.
use crate::footer::FooterContext;
use crate::footer::FooterGenerator;
use crate::footer::FooterGeneratorView;
use crate::style::Colors;
use crate::text::StyledText;
use crate::text::WeightedLine;
use crate::text::WeightedText;
use crate::text::WeightedTextView;
use crate::theme::Alignment;
use crate::theme::Margin;
use vstd::prelude::*;

verus! {

/// A loaded image, by the handle under which its loader keeps it.
#[derive(Clone, Copy, Debug, PartialEq, Eq)]
pub struct Image {
    pub handle: u64,
}

/// The margins of a slide.
#[derive(Clone, Copy, Debug, PartialEq, Eq)]
pub struct MarginProperties {
    pub horizontal_margin: Margin,
    pub bottom_slide_margin: u16,
}

/// A line that is drawn as it stands, inside a block of a given width.
#[derive(Clone, Debug, PartialEq, Eq)]
pub struct PreformattedLine {
    /// The text, which may hold escape sequences.
    pub text: String,
    /// The width of the line once displayed.
    pub unformatted_length: usize,
    /// The width of the block that the line belongs to.
    pub block_length: usize,
    pub alignment: Alignment,
}

/// A preformatted line as contracts see it.
pub struct PreformattedLineView {
    pub text: Seq<char>,
    pub unformatted_length: usize,
    pub block_length: usize,
    pub alignment: Alignment,
}

impl DeepView for PreformattedLine {
    type V = PreformattedLineView;

    open spec fn deep_view(&self) -> PreformattedLineView {
        PreformattedLineView {
            text: self.text@,
            unformatted_length: self.unformatted_length,
            block_length: self.block_length,
            alignment: self.alignment,
        }
    }
}

/// One draw instruction.
#[derive(Clone, Debug, PartialEq, Eq)]
pub enum RenderOperation {
    /// Clear the screen.
    ClearScreen,
    /// Draw with these colors from here on.
    SetColors(Colors),
    /// Move to the middle row.
    JumpToVerticalCenter,
    /// Move to the last row.
    JumpToBottom,
    /// Draw a line of text.
    RenderTextLine { line: WeightedLine, alignment: Alignment },
    /// Draw a horizontal rule.
    RenderSeparator,
    /// Move to the next row.
    RenderLineBreak,
    /// Draw an image.
    RenderImage(Image),
    /// Draw a line as it stands.
    RenderPreformattedLine(PreformattedLine),
    /// Draw what the footer generator gives for the screen's size at that time.
    RenderDynamic(FooterGenerator),
    /// Split the screen into columns of these relative widths.
    InitColumnLayout { columns: Vec<u8> },
    /// Draw inside this column from here on.
    EnterColumn { column: usize },
    /// Leave the column layout.
    ExitLayout,
    /// Shrink the drawing area by these margins.
    ApplyMargin(MarginProperties),
    /// Undo the last margin.
    PopMargin,
}

/// A draw instruction as contracts see it.
pub enum RenderOperationView {
    ClearScreen,
    SetColors(Colors),
    JumpToVerticalCenter,
    JumpToBottom,
    RenderTextLine { line: Seq<WeightedTextView>, alignment: Alignment },
    RenderSeparator,
    RenderLineBreak,
    RenderImage(Image),
    RenderPreformattedLine(PreformattedLineView),
    RenderDynamic(FooterGeneratorView),
    InitColumnLayout { columns: Seq<u8> },
    EnterColumn { column: usize },
    ExitLayout,
    ApplyMargin(MarginProperties),
    PopMargin,
}

impl DeepView for RenderOperation {
    type V = RenderOperationView;

    open spec fn deep_view(&self) -> RenderOperationView {
        match self {
            RenderOperation::ClearScreen => RenderOperationView::ClearScreen,
            RenderOperation::SetColors(colors) => RenderOperationView::SetColors(*colors),
            RenderOperation::JumpToVerticalCenter => RenderOperationView::JumpToVerticalCenter,
            RenderOperation::JumpToBottom => RenderOperationView::JumpToBottom,
            RenderOperation::RenderTextLine { line, alignment } => RenderOperationView::RenderTextLine {
                line: line.deep_view(),
                alignment: *alignment,
            },
            RenderOperation::RenderSeparator => RenderOperationView::RenderSeparator,
            RenderOperation::RenderLineBreak => RenderOperationView::RenderLineBreak,
            RenderOperation::RenderImage(image) => RenderOperationView::RenderImage(*image),
            RenderOperation::RenderPreformattedLine(line) => RenderOperationView::RenderPreformattedLine(
                line.deep_view(),
            ),
            RenderOperation::RenderDynamic(generator) => RenderOperationView::RenderDynamic(
                generator.deep_view(),
            ),
            RenderOperation::InitColumnLayout { columns } => RenderOperationView::InitColumnLayout {
                columns: columns@,
            },
            RenderOperation::EnterColumn { column } => RenderOperationView::EnterColumn {
                column: *column,
            },
            RenderOperation::ExitLayout => RenderOperationView::ExitLayout,
            RenderOperation::ApplyMargin(margin) => RenderOperationView::ApplyMargin(*margin),
            RenderOperation::PopMargin => RenderOperationView::PopMargin,
        }
    }
}

impl RenderOperationView {
    /// Whether the instruction draws something or moves to the next row, rather
    /// than setting the scene.
    pub open spec fn is_visible(self) -> bool {
        match self {
            RenderOperationView::RenderTextLine { .. } => true,
            RenderOperationView::RenderSeparator => true,
            RenderOperationView::RenderLineBreak => true,
            RenderOperationView::RenderImage(_) => true,
            RenderOperationView::RenderPreformattedLine(_) => true,
            RenderOperationView::RenderDynamic(_) => true,
            _ => false,
        }
    }
}

/// A copy of a list of column widths.
pub fn copy_of_columns(columns: &Vec<u8>) -> (copy: Vec<u8>)
    ensures
        copy@ == columns@,
{
    let mut copy: Vec<u8> = Vec::new();
    let mut at: usize = 0;
    while at < columns.len()
        invariant
            at <= columns@.len(),
            copy@ == columns@.take(at as int),
        decreases columns@.len() - at,
    {
        copy.push(columns[at]);
        at = at + 1;
    }
    assert(columns@.take(at as int) == columns@);
    copy
}

impl RenderOperation {
    /// A copy of this instruction.
    pub fn duplicate(&self) -> (copy: RenderOperation)
        ensures
            copy.deep_view() == self.deep_view(),
    {
        match self {
            RenderOperation::ClearScreen => RenderOperation::ClearScreen,
            RenderOperation::SetColors(colors) => RenderOperation::SetColors(*colors),
            RenderOperation::JumpToVerticalCenter => RenderOperation::JumpToVerticalCenter,
            RenderOperation::JumpToBottom => RenderOperation::JumpToBottom,
            RenderOperation::RenderTextLine { line, alignment } => RenderOperation::RenderTextLine {
                line: line.duplicate(),
                alignment: *alignment,
            },
            RenderOperation::RenderSeparator => RenderOperation::RenderSeparator,
            RenderOperation::RenderLineBreak => RenderOperation::RenderLineBreak,
            RenderOperation::RenderImage(image) => RenderOperation::RenderImage(*image),
            RenderOperation::RenderPreformattedLine(line) => RenderOperation::RenderPreformattedLine(
                PreformattedLine {
                    text: line.text.clone(),
                    unformatted_length: line.unformatted_length,
                    block_length: line.block_length,
                    alignment: line.alignment,
                },
            ),
            RenderOperation::RenderDynamic(generator) => RenderOperation::RenderDynamic(
                FooterGenerator {
                    current_slide: generator.current_slide,
                    style: generator.style.duplicate(),
                },
            ),
            RenderOperation::InitColumnLayout { columns } => RenderOperation::InitColumnLayout {
                columns: copy_of_columns(columns),
            },
            RenderOperation::EnterColumn { column } => RenderOperation::EnterColumn {
                column: *column,
            },
            RenderOperation::ExitLayout => RenderOperation::ExitLayout,
            RenderOperation::ApplyMargin(margin) => RenderOperation::ApplyMargin(*margin),
            RenderOperation::PopMargin => RenderOperation::PopMargin,
        }
    }

    /// A line made of one piece of text.
    pub fn text_line(text: StyledText, alignment: Alignment) -> (operation: RenderOperation)
        ensures
            operation.deep_view() == (RenderOperationView::RenderTextLine {
                line: seq![crate::text::weighed(text.deep_view())],
                alignment,
            }),
    {
        let mut texts: Vec<WeightedText> = Vec::new();
        texts.push(WeightedText::new(text));
        assert(texts.deep_view() =~= seq![crate::text::weighed(text.deep_view())]);
        RenderOperation::RenderTextLine { line: WeightedLine { texts }, alignment }
    }
}

/// A copy of a list of instructions.
pub fn copy_of_operations(operations: &Vec<RenderOperation>) -> (copy: Vec<RenderOperation>)
    ensures
        copy.deep_view() == operations.deep_view(),
{
    let mut copy: Vec<RenderOperation> = Vec::new();
    let mut at: usize = 0;
    while at < operations.len()
        invariant
            at <= operations@.len(),
            copy.deep_view() == operations.deep_view().take(at as int),
        decreases operations@.len() - at,
    {
        let ghost before = copy.deep_view();
        let ghost wanted = operations.deep_view();
        let operation = operations[at].duplicate();
        assert(operation.deep_view() == wanted[at as int]);
        copy.push(operation);
        assert(copy.deep_view() == before.push(wanted[at as int]));
        assert(wanted.take(at + 1) == wanted.take(at as int).push(wanted[at as int]));
        at = at + 1;
    }
    assert(operations.deep_view().take(at as int) == operations.deep_view());
    copy
}

/// A slide: the instructions that draw it, in order.
#[derive(Clone, Debug, PartialEq, Eq)]
pub struct Slide {
    pub render_operations: Vec<RenderOperation>,
}

impl DeepView for Slide {
    type V = Seq<RenderOperationView>;

    open spec fn deep_view(&self) -> Seq<RenderOperationView> {
        self.render_operations.deep_view()
    }
}

/// A presentation as contracts see it.
#[verifier::ext_equal]
pub struct PresentationView {
    /// The slides, in order.
    pub slides: Seq<Seq<RenderOperationView>>,
    /// The index of the slide that is shown.
    pub current_slide_index: usize,
    /// The author, for the footers.
    pub author: Seq<char>,
}

impl PresentationView {
    /// There is a slide, and the cursor is on one.
    pub open spec fn wf(self) -> bool {
        0 <= self.current_slide_index < self.slides.len() <= usize::MAX
    }

    /// This presentation with the cursor on the slide `index`.
    pub open spec fn at(self, index: usize) -> PresentationView {
        PresentationView { current_slide_index: index, ..self }
    }

    /// The index of the last slide.
    pub open spec fn last_index(self) -> usize {
        (self.slides.len() - 1) as usize
    }
}

/// A presentation: slides, and a cursor that is always on one of them.
#[derive(Debug)]
pub struct Presentation {
    slides: Vec<Slide>,
    current_slide_index: usize,
    footer_context: FooterContext,
}

impl View for Presentation {
    type V = PresentationView;

    closed spec fn view(&self) -> PresentationView {
        PresentationView {
            slides: self.slides.deep_view(),
            current_slide_index: self.current_slide_index,
            author: self.footer_context.author@,
        }
    }
}

impl Presentation {
    #[verifier::type_invariant]
    spec fn cursor_on_a_slide(self) -> bool {
        &&& self.current_slide_index < self.slides@.len()
        &&& self.footer_context.total_slides == self.slides@.len()
    }

    /// A presentation of the given slides by `author`, with the cursor on the
    /// first. The footers' count of slides is fixed here, once, at the number
    /// of slides given.
    pub fn new(slides: Vec<Slide>, author: String) -> (presentation: Presentation)
        requires
            slides@.len() > 0,
        ensures
            presentation@ == (PresentationView {
                slides: slides.deep_view(),
                current_slide_index: 0,
                author: author@,
            }),
            presentation@.wf(),
    {
        let total_slides = slides.len();
        Presentation {
            slides,
            current_slide_index: 0,
            footer_context: FooterContext { total_slides, author },
        }
    }

    /// The slides, in order.
    pub fn iter_slides(&self) -> (slides: &Vec<Slide>)
        ensures
            slides.deep_view() == self@.slides,
            self@.wf(),
    {
        proof {
            use_type_invariant(self);
        }
        &self.slides
    }

    /// The slides, in order.
    pub fn into_slides(self) -> (slides: Vec<Slide>)
        ensures
            slides.deep_view() == self@.slides,
            self@.wf(),
    {
        proof {
            use_type_invariant(&self);
        }
        self.slides
    }

    /// The slide that is shown.
    pub fn current_slide(&self) -> (slide: &Slide)
        ensures
            self@.wf(),
            slide.deep_view() == self@.slides[self@.current_slide_index as int],
    {
        proof {
            use_type_invariant(self);
        }
        &self.slides[self.current_slide_index]
    }

    /// The index of the slide that is shown.
    pub fn current_slide_index(&self) -> (index: usize)
        ensures
            self@.wf(),
            index == self@.current_slide_index,
    {
        proof {
            use_type_invariant(self);
        }
        self.current_slide_index
    }

    /// The number of slides.
    pub fn total_slides(&self) -> (total: usize)
        ensures
            self@.wf(),
            total == self@.slides.len(),
    {
        proof {
            use_type_invariant(self);
        }
        self.slides.len()
    }

    /// What the footers are filled in with: the number of slides and the author.
    pub fn footer_context(&self) -> (context: &FooterContext)
        ensures
            self@.wf(),
            context.total_slides == self@.slides.len(),
            context.author@ == self@.author,
    {
        proof {
            use_type_invariant(self);
        }
        &self.footer_context
    }

    /// Moves to the next slide, if there is one. Says whether the cursor moved.
    pub fn jump_next_slide(&mut self) -> (moved: bool)
        ensures
            old(self)@.wf(),
            moved == (old(self)@.current_slide_index < old(self)@.last_index()),
            final(self)@ == if moved {
                old(self)@.at((old(self)@.current_slide_index + 1) as usize)
            } else {
                old(self)@
            },
    {
        proof {
            use_type_invariant(&*self);
        }
        if self.current_slide_index < self.slides.len() - 1 {
            self.current_slide_index = self.current_slide_index + 1;
            true
        } else {
            false
        }
    }

    /// Moves to the previous slide, if there is one. Says whether the cursor
    /// moved.
    pub fn jump_previous_slide(&mut self) -> (moved: bool)
        ensures
            old(self)@.wf(),
            moved == (old(self)@.current_slide_index > 0),
            final(self)@ == if moved {
                old(self)@.at((old(self)@.current_slide_index - 1) as usize)
            } else {
                old(self)@
            },
    {
        proof {
            use_type_invariant(&*self);
        }
        if self.current_slide_index > 0 {
            self.current_slide_index = self.current_slide_index - 1;
            true
        } else {
            false
        }
    }

    /// Moves to the first slide. Says whether the cursor moved.
    pub fn jump_first_slide(&mut self) -> (moved: bool)
        ensures
            old(self)@.wf(),
            moved == (old(self)@.current_slide_index != 0),
            final(self)@ == old(self)@.at(0),
    {
        proof {
            use_type_invariant(&*self);
        }
        if self.current_slide_index != 0 {
            self.current_slide_index = 0;
            true
        } else {
            false
        }
    }

    /// Moves to the last slide. Says whether the cursor moved.
    pub fn jump_last_slide(&mut self) -> (moved: bool)
        ensures
            old(self)@.wf(),
            moved == (old(self)@.current_slide_index != old(self)@.last_index()),
            final(self)@ == old(self)@.at(old(self)@.last_index()),
    {
        proof {
            use_type_invariant(&*self);
        }
        let last = self.slides.len() - 1;
        if self.current_slide_index != last {
            self.current_slide_index = last;
            true
        } else {
            false
        }
    }

    /// Moves to the slide `slide_index`, if there is one. Says whether the
    /// cursor moved.
    pub fn jump_slide(&mut self, slide_index: usize) -> (moved: bool)
        ensures
            old(self)@.wf(),
            moved == (slide_index < old(self)@.slides.len() && slide_index != old(
                self,
            )@.current_slide_index),
            final(self)@ == if slide_index < old(self)@.slides.len() {
                old(self)@.at(slide_index)
            } else {
                old(self)@
            },
    {
        proof {
            use_type_invariant(&*self);
        }
        if slide_index < self.slides.len() && slide_index != self.current_slide_index {
            self.current_slide_index = slide_index;
            true
        } else {
            false
        }
    }
}

} // verus!
