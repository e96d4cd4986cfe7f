//! The footer of a slide, which is worked out when the slide is drawn: only
//! then are the screen's width and the number of slides known.
use crate::presentation::RenderOperation;
use crate::presentation::RenderOperationView;
use crate::strings::decimal;
use crate::strings::decimal_string;
use crate::strings::repeat_char;
use crate::strings::repeated;
use crate::strings::replace;
use crate::strings::replaced;
use crate::style::Colors;
use crate::style::TextStyle;
use crate::text::weighed;
use crate::text::StyledText;
use crate::text::StyledTextView;
use crate::theme::Alignment;
use crate::theme::FooterStyle;
use crate::theme::FooterStyleView;
use crate::theme::Margin;
use crate::width::display_width;
use crate::width::width;
use vstd::prelude::*;

verus! {

/// The size of the screen, in character cells.
#[derive(Clone, Copy, Debug, PartialEq, Eq)]
pub struct WindowSize {
    pub rows: u16,
    pub columns: u16,
}

/// What the footers of a presentation are filled in with. It is made once,
/// when the number of slides is final, and only read afterwards.
#[derive(Clone, Debug, PartialEq, Eq)]
pub struct FooterContext {
    pub total_slides: usize,
    pub author: String,
}

/// The footer of one slide: its style, and the index of the slide.
#[derive(Clone, Debug, PartialEq, Eq)]
pub struct FooterGenerator {
    pub current_slide: usize,
    pub style: FooterStyle,
}

/// A footer generator as contracts see it.
pub struct FooterGeneratorView {
    pub current_slide: usize,
    pub style: FooterStyleView,
}

impl DeepView for FooterGenerator {
    type V = FooterGeneratorView;

    open spec fn deep_view(&self) -> FooterGeneratorView {
        FooterGeneratorView { current_slide: self.current_slide, style: self.style.deep_view() }
    }
}

/// The bar's character where the theme names none.
pub open spec fn default_bar_character() -> char {
    '█'
}

/// `template` with the slide's number, the number of slides and the author
/// filled in, in that order.
pub open spec fn template_contents(
    template: Seq<char>,
    current_slide: Seq<char>,
    total_slides: nat,
    author: Seq<char>,
) -> Seq<char> {
    replaced(
        replaced(
            replaced(template, "{current_slide}"@, current_slide),
            "{total_slides}"@,
            decimal(total_slides),
        ),
        "{author}"@,
        author,
    )
}

/// The line that draws a filled-in template.
pub open spec fn template_line(
    template: Seq<char>,
    current_slide: Seq<char>,
    total_slides: nat,
    author: Seq<char>,
    colors: Colors,
    alignment: Alignment,
) -> RenderOperationView {
    RenderOperationView::RenderTextLine {
        line: seq![
            weighed(
                StyledTextView {
                    text: template_contents(template, current_slide, total_slides, author),
                    style: TextStyle::colored(colors),
                },
            ),
        ],
        alignment,
    }
}

/// The line of a template that may be missing.
pub open spec fn optional_template_line(
    template: Option<Seq<char>>,
    current_slide: Seq<char>,
    total_slides: nat,
    author: Seq<char>,
    colors: Colors,
    alignment: Alignment,
) -> Seq<RenderOperationView> {
    match template {
        Some(template) => seq![
            template_line(template, current_slide, total_slides, author, colors, alignment),
        ],
        None => Seq::empty(),
    }
}

/// How many copies of the bar's character are drawn: the share
/// `shown / total_slides` of the copies that fit on a screen of `columns`
/// columns, rounded up.
pub open spec fn progress_length(
    columns: nat,
    character_width: nat,
    shown: nat,
    total_slides: nat,
) -> nat {
    let fitting = columns / character_width;
    ((fitting * shown + total_slides - 1) / (total_slides as int)) as nat
}

/// The instructions that draw the footer of the slide `generator.current_slide`
/// of a presentation of `total_slides` slides by `author`, on a screen of the
/// given size. A progress bar has none where its character takes no column,
/// or where the slide is not one of the presentation's.
pub open spec fn footer_operations(
    generator: FooterGeneratorView,
    total_slides: usize,
    author: Seq<char>,
    dimensions: WindowSize,
) -> Option<Seq<RenderOperationView>> {
    match generator.style {
        FooterStyleView::Template { left, center, right, colors } => {
            let number = decimal((generator.current_slide + 1) as nat);
            let margin = Margin::Fixed(1);
            Some(
                optional_template_line(
                    left,
                    number,
                    total_slides as nat,
                    author,
                    colors,
                    Alignment::Left { margin },
                ) + optional_template_line(
                    center,
                    number,
                    total_slides as nat,
                    author,
                    colors,
                    Alignment::Center { minimum_size: 0, minimum_margin: margin },
                ) + optional_template_line(
                    right,
                    number,
                    total_slides as nat,
                    author,
                    colors,
                    Alignment::Right { margin },
                ),
            )
        },
        FooterStyleView::ProgressBar { character, colors } => {
            let character = match character {
                Some(character) => character,
                None => default_bar_character(),
            };
            let character_width = display_width(seq![character]);
            if character_width == 0 || generator.current_slide >= total_slides {
                None
            } else {
                let length = progress_length(
                    dimensions.columns as nat,
                    character_width as nat,
                    (generator.current_slide + 1) as nat,
                    total_slides as nat,
                );
                Some(
                    seq![
                        RenderOperationView::RenderTextLine {
                            line: seq![
                                weighed(
                                    StyledTextView {
                                        text: repeat_char(character, length),
                                        style: TextStyle::colored(colors),
                                    },
                                ),
                            ],
                            alignment: Alignment::Left { margin: Margin::Fixed(0) },
                        },
                    ],
                )
            }
        },
        FooterStyleView::Empty => Some(Seq::empty()),
    }
}

/// The plain style with the given colors.
fn colored(colors: Colors) -> (style: TextStyle)
    ensures
        style == TextStyle::colored(colors),
{
    TextStyle { bold: false, italics: false, strikethrough: false, code: false, colors }
}

/// How many copies of the bar's character are drawn on a screen of `columns`
/// columns for the slide `current_slide` of `total_slides`.
pub fn progress_columns(
    columns: u16,
    character_width: usize,
    current_slide: usize,
    total_slides: usize,
) -> (length: usize)
    requires
        character_width > 0,
        current_slide < total_slides,
    ensures
        length == progress_length(
            columns as nat,
            character_width as nat,
            (current_slide + 1) as nat,
            total_slides as nat,
        ),
        length <= columns,
{
    let fitting: u128 = (columns as usize / character_width) as u128;
    let shown: u128 = current_slide as u128 + 1;
    let total: u128 = total_slides as u128;
    assert(fitting * shown <= fitting * total) by (nonlinear_arith)
        requires
            shown <= total,
            0 <= fitting,
    ;
    assert(fitting * total <= 0xFFFF * 0xFFFF_FFFF_FFFF_FFFF) by (nonlinear_arith)
        requires
            0 <= fitting <= 0xFFFF,
            0 <= total <= 0xFFFF_FFFF_FFFF_FFFF,
    ;
    let filled: u128 = (fitting * shown + total - 1) / total;
    assert(filled <= fitting) by (nonlinear_arith)
        requires
            filled == (fitting * shown + total - 1) / (total as int),
            fitting * shown <= fitting * total,
            total > 0,
            0 <= fitting,
    ;
    filled as usize
}

impl FooterGenerator {
    /// The line that draws `template`, filled in.
    pub fn render_template(
        template: &str,
        current_slide: &str,
        context: &FooterContext,
        colors: Colors,
        alignment: Alignment,
    ) -> (operation: RenderOperation)
        ensures
            operation.deep_view() == template_line(
                template@,
                current_slide@,
                context.total_slides as nat,
                context.author@,
                colors,
                alignment,
            ),
    {
        proof {
            reveal_strlit("{current_slide}");
            reveal_strlit("{total_slides}");
            reveal_strlit("{author}");
        }
        let total = decimal_string(context.total_slides as u128);
        let with_current = replace(template, "{current_slide}", current_slide);
        let with_total = replace(with_current.as_str(), "{total_slides}", total.as_str());
        let contents = replace(with_total.as_str(), "{author}", context.author.as_str());
        RenderOperation::text_line(StyledText::new(contents, colored(colors)), alignment)
    }

    /// Appends the line of a template that may be missing.
    fn push_template(
        operations: &mut Vec<RenderOperation>,
        template: &Option<String>,
        current_slide: &str,
        context: &FooterContext,
        colors: Colors,
        alignment: Alignment,
    )
        ensures
            final(operations).deep_view() == old(operations).deep_view() + optional_template_line(
                template.deep_view(),
                current_slide@,
                context.total_slides as nat,
                context.author@,
                colors,
                alignment,
            ),
    {
        if let Some(text) = template {
            let ghost before = operations.deep_view();
            let line = Self::render_template(
                text.as_str(),
                current_slide,
                context,
                colors,
                alignment,
            );
            operations.push(line);
            assert(operations.deep_view() == before.push(line.deep_view()));
            assert(before.push(line.deep_view()) == before + seq![line.deep_view()]);
        } else {
            assert(operations.deep_view() + Seq::empty() == operations.deep_view());
        }
    }

    /// The instructions that draw this footer on a screen of the given size.
    /// A progress bar has none where its character takes no column or where
    /// the slide is not one of the presentation's.
    pub fn as_render_operations(&self, context: &FooterContext, dimensions: &WindowSize) -> (operations:
        Option<Vec<RenderOperation>>)
        ensures
            operations.deep_view() == footer_operations(
                self.deep_view(),
                context.total_slides,
                context.author@,
                *dimensions,
            ),
    {
        let mut operations: Vec<RenderOperation> = Vec::new();
        match &self.style {
            FooterStyle::Template { left, center, right, colors } => {
                let current_slide = decimal_string(self.current_slide as u128 + 1);
                let margin = Margin::Fixed(1);
                Self::push_template(
                    &mut operations,
                    left,
                    current_slide.as_str(),
                    context,
                    *colors,
                    Alignment::Left { margin },
                );
                Self::push_template(
                    &mut operations,
                    center,
                    current_slide.as_str(),
                    context,
                    *colors,
                    Alignment::Center { minimum_size: 0, minimum_margin: margin },
                );
                Self::push_template(
                    &mut operations,
                    right,
                    current_slide.as_str(),
                    context,
                    *colors,
                    Alignment::Right { margin },
                );
                Some(operations)
            },
            FooterStyle::ProgressBar { character, colors } => {
                let character = match character {
                    Some(character) => *character,
                    None => '█',
                };
                let single = repeated(character, 1);
                assert(single@ =~= seq![character]);
                let character_width = width(single.as_str());
                if character_width == 0 || self.current_slide >= context.total_slides {
                    return None;
                }
                let length = progress_columns(
                    dimensions.columns,
                    character_width,
                    self.current_slide,
                    context.total_slides,
                );
                let bar = repeated(character, length);
                let ghost before = operations.deep_view();
                operations.push(
                    RenderOperation::text_line(
                        StyledText::new(bar, colored(*colors)),
                        Alignment::Left { margin: Margin::Fixed(0) },
                    ),
                );
                assert(operations.deep_view() =~= seq![operations@[0].deep_view()]);
                Some(operations)
            },
            FooterStyle::Empty => Some(operations),
        }
    }
}

} // verus!
