//! The theme: how each kind of element is laid out and colored.
use crate::style::Colors;
use vstd::prelude::*;

verus! {

/// A horizontal margin.
#[derive(Clone, Copy, Debug, PartialEq, Eq)]
pub enum Margin {
    /// A number of columns.
    Fixed(usize),
    /// A share of the screen's width, in percent.
    Percent(u8),
}

/// Where a line is placed on the screen.
#[derive(Clone, Copy, Debug, PartialEq, Eq)]
pub enum Alignment {
    Left { margin: Margin },
    Right { margin: Margin },
    Center { minimum_margin: Margin, minimum_size: u16 },
}

impl Alignment {
    /// The alignment of what the theme says nothing about: at the left edge.
    pub open spec fn base() -> Alignment {
        Alignment::Left { margin: Margin::Fixed(0) }
    }
}

impl Default for Alignment {
    fn default() -> (alignment: Alignment)
        ensures
            alignment == Alignment::base(),
    {
        Alignment::Left { margin: Margin::Fixed(0) }
    }
}

/// The kinds of element that a theme styles.
#[derive(Clone, Copy, Debug, PartialEq, Eq)]
pub enum ElementType {
    SlideTitle,
    Heading1,
    Heading2,
    Heading3,
    Heading4,
    Heading5,
    Heading6,
    Paragraph,
    List,
    Code,
    PresentationTitle,
    PresentationSubTitle,
    PresentationAuthor,
    Table,
    BlockQuote,
}

/// Where the author stands on the introduction slide.
#[derive(Clone, Copy, Debug, PartialEq, Eq)]
pub enum AuthorPositioning {
    BelowTitle,
    PageBottom,
}

/// What is drawn at the bottom of every slide.
#[derive(Clone, Debug, PartialEq, Eq)]
pub enum FooterStyle {
    /// Up to three texts in which `{current_slide}`, `{total_slides}` and
    /// `{author}` are filled in.
    Template { left: Option<String>, center: Option<String>, right: Option<String>, colors: Colors },
    /// A bar that grows with the slide's number.
    ProgressBar { character: Option<char>, colors: Colors },
    /// Nothing.
    Empty,
}

/// A footer style as contracts see it.
pub enum FooterStyleView {
    Template {
        left: Option<Seq<char>>,
        center: Option<Seq<char>>,
        right: Option<Seq<char>>,
        colors: Colors,
    },
    ProgressBar { character: Option<char>, colors: Colors },
    Empty,
}

impl DeepView for FooterStyle {
    type V = FooterStyleView;

    open spec fn deep_view(&self) -> FooterStyleView {
        match self {
            FooterStyle::Template { left, center, right, colors } => FooterStyleView::Template {
                left: left.deep_view(),
                center: center.deep_view(),
                right: right.deep_view(),
                colors: *colors,
            },
            FooterStyle::ProgressBar { character, colors } => FooterStyleView::ProgressBar {
                character: *character,
                colors: *colors,
            },
            FooterStyle::Empty => FooterStyleView::Empty,
        }
    }
}

/// A copy of an optional text.
pub fn copy_of_text(text: &Option<String>) -> (copy: Option<String>)
    ensures
        copy == *text,
{
    match text {
        Some(text) => Some(text.clone()),
        None => None,
    }
}

impl FooterStyle {
    /// A copy of this style.
    pub fn duplicate(&self) -> (copy: FooterStyle)
        ensures
            copy == *self,
    {
        match self {
            FooterStyle::Template { left, center, right, colors } => FooterStyle::Template {
                left: copy_of_text(left),
                center: copy_of_text(center),
                right: copy_of_text(right),
                colors: *colors,
            },
            FooterStyle::ProgressBar { character, colors } => FooterStyle::ProgressBar {
                character: *character,
                colors: *colors,
            },
            FooterStyle::Empty => FooterStyle::Empty,
        }
    }
}

/// The style of everything that has none of its own.
#[derive(Clone, Copy, Debug, PartialEq, Eq)]
pub struct DefaultStyle {
    pub margin: Option<Margin>,
    pub colors: Colors,
}

/// The style of a slide's title.
#[derive(Clone, Copy, Debug, PartialEq, Eq)]
pub struct SlideTitleStyle {
    pub alignment: Option<Alignment>,
    pub separator: bool,
    pub padding_top: Option<u8>,
    pub padding_bottom: Option<u8>,
    pub colors: Colors,
}

/// The style of the headings of one level.
#[derive(Clone, Debug, PartialEq, Eq)]
pub struct HeadingStyle {
    pub alignment: Option<Alignment>,
    pub prefix: Option<String>,
    pub colors: Colors,
}

/// The styles of the six levels of heading.
#[derive(Clone, Debug, PartialEq, Eq)]
pub struct HeadingStyles {
    pub h1: HeadingStyle,
    pub h2: HeadingStyle,
    pub h3: HeadingStyle,
    pub h4: HeadingStyle,
    pub h5: HeadingStyle,
    pub h6: HeadingStyle,
}

/// The blank space around a block of code.
#[derive(Clone, Copy, Debug, PartialEq, Eq)]
pub struct PaddingRect {
    pub horizontal: Option<u8>,
    pub vertical: Option<u8>,
}

/// The style of a block of code.
#[derive(Clone, Debug, PartialEq, Eq)]
pub struct CodeBlockStyle {
    pub alignment: Option<Alignment>,
    pub padding: PaddingRect,
    pub theme_name: Option<String>,
}

/// The style of code inside a line of text.
#[derive(Clone, Copy, Debug, PartialEq, Eq)]
pub struct InlineCodeStyle {
    pub colors: Colors,
}

/// The style of a block quote.
#[derive(Clone, Debug, PartialEq, Eq)]
pub struct BlockQuoteStyle {
    pub alignment: Option<Alignment>,
    pub prefix: Option<String>,
    pub colors: Colors,
}

/// An alignment and colors.
#[derive(Clone, Copy, Debug, PartialEq, Eq)]
pub struct BasicStyle {
    pub alignment: Option<Alignment>,
    pub colors: Colors,
}

/// The style of the author's name on the introduction slide.
#[derive(Clone, Copy, Debug, PartialEq, Eq)]
pub struct AuthorStyle {
    pub alignment: Option<Alignment>,
    pub colors: Colors,
    pub positioning: AuthorPositioning,
}

/// The style of the introduction slide.
#[derive(Clone, Copy, Debug, PartialEq, Eq)]
pub struct IntroSlideStyle {
    pub title: BasicStyle,
    pub subtitle: BasicStyle,
    pub author: AuthorStyle,
}

/// A presentation's theme.
#[derive(Clone, Debug, PartialEq, Eq)]
pub struct PresentationTheme {
    pub default_style: DefaultStyle,
    pub slide_title: SlideTitleStyle,
    pub code: CodeBlockStyle,
    pub inline_code: InlineCodeStyle,
    pub table: Option<Alignment>,
    pub block_quote: BlockQuoteStyle,
    pub headings: HeadingStyles,
    pub intro_slide: IntroSlideStyle,
    pub footer: FooterStyle,
}

impl HeadingStyle {
    /// The style that sets nothing.
    pub open spec fn bare() -> HeadingStyle {
        HeadingStyle { alignment: None, prefix: None, colors: Colors::none() }
    }

    /// A copy of this style.
    pub fn duplicate(&self) -> (copy: HeadingStyle)
        ensures
            copy == *self,
    {
        HeadingStyle {
            alignment: self.alignment,
            prefix: copy_of_text(&self.prefix),
            colors: self.colors,
        }
    }
}

impl PresentationTheme {
    /// The theme that sets nothing: no colors, no padding, everything at the
    /// left edge, no footer.
    pub open spec fn bare() -> PresentationTheme {
        PresentationTheme {
            default_style: DefaultStyle { margin: None, colors: Colors::none() },
            slide_title: SlideTitleStyle {
                alignment: None,
                separator: false,
                padding_top: None,
                padding_bottom: None,
                colors: Colors::none(),
            },
            code: CodeBlockStyle {
                alignment: None,
                padding: PaddingRect { horizontal: None, vertical: None },
                theme_name: None,
            },
            inline_code: InlineCodeStyle { colors: Colors::none() },
            table: None,
            block_quote: BlockQuoteStyle { alignment: None, prefix: None, colors: Colors::none() },
            headings: HeadingStyles {
                h1: HeadingStyle::bare(),
                h2: HeadingStyle::bare(),
                h3: HeadingStyle::bare(),
                h4: HeadingStyle::bare(),
                h5: HeadingStyle::bare(),
                h6: HeadingStyle::bare(),
            },
            intro_slide: IntroSlideStyle {
                title: BasicStyle { alignment: None, colors: Colors::none() },
                subtitle: BasicStyle { alignment: None, colors: Colors::none() },
                author: AuthorStyle {
                    alignment: None,
                    colors: Colors::none(),
                    positioning: AuthorPositioning::BelowTitle,
                },
            },
            footer: FooterStyle::Empty,
        }
    }

    /// The alignment that the theme gives to an element of the given kind:
    /// the one it sets for that kind, or else the left edge.
    pub open spec fn alignment_of(self, element: ElementType) -> Alignment {
        let chosen = match element {
            ElementType::SlideTitle => self.slide_title.alignment,
            ElementType::Heading1 => self.headings.h1.alignment,
            ElementType::Heading2 => self.headings.h2.alignment,
            ElementType::Heading3 => self.headings.h3.alignment,
            ElementType::Heading4 => self.headings.h4.alignment,
            ElementType::Heading5 => self.headings.h5.alignment,
            ElementType::Heading6 => self.headings.h6.alignment,
            ElementType::Paragraph => None,
            ElementType::List => None,
            ElementType::Code => self.code.alignment,
            ElementType::PresentationTitle => self.intro_slide.title.alignment,
            ElementType::PresentationSubTitle => self.intro_slide.subtitle.alignment,
            ElementType::PresentationAuthor => self.intro_slide.author.alignment,
            ElementType::Table => self.table,
            ElementType::BlockQuote => self.block_quote.alignment,
        };
        match chosen {
            Some(alignment) => alignment,
            None => Alignment::base(),
        }
    }

    /// The style of the headings of `level`, which is 1 to 6.
    pub open spec fn heading_style(self, level: u8) -> HeadingStyle {
        if level == 1 {
            self.headings.h1
        } else if level == 2 {
            self.headings.h2
        } else if level == 3 {
            self.headings.h3
        } else if level == 4 {
            self.headings.h4
        } else if level == 5 {
            self.headings.h5
        } else {
            self.headings.h6
        }
    }

    /// The kind of element that a heading of `level` is.
    pub open spec fn heading_type(level: u8) -> ElementType {
        if level == 1 {
            ElementType::Heading1
        } else if level == 2 {
            ElementType::Heading2
        } else if level == 3 {
            ElementType::Heading3
        } else if level == 4 {
            ElementType::Heading4
        } else if level == 5 {
            ElementType::Heading5
        } else {
            ElementType::Heading6
        }
    }

    /// The alignment of an element of the given kind.
    pub fn alignment(&self, element: ElementType) -> (alignment: Alignment)
        ensures
            alignment == self.alignment_of(element),
    {
        let chosen = match element {
            ElementType::SlideTitle => self.slide_title.alignment,
            ElementType::Heading1 => self.headings.h1.alignment,
            ElementType::Heading2 => self.headings.h2.alignment,
            ElementType::Heading3 => self.headings.h3.alignment,
            ElementType::Heading4 => self.headings.h4.alignment,
            ElementType::Heading5 => self.headings.h5.alignment,
            ElementType::Heading6 => self.headings.h6.alignment,
            ElementType::Paragraph => None,
            ElementType::List => None,
            ElementType::Code => self.code.alignment,
            ElementType::PresentationTitle => self.intro_slide.title.alignment,
            ElementType::PresentationSubTitle => self.intro_slide.subtitle.alignment,
            ElementType::PresentationAuthor => self.intro_slide.author.alignment,
            ElementType::Table => self.table,
            ElementType::BlockQuote => self.block_quote.alignment,
        };
        match chosen {
            Some(alignment) => alignment,
            None => Alignment::Left { margin: Margin::Fixed(0) },
        }
    }

    /// A copy of this theme.
    pub fn duplicate(&self) -> (copy: PresentationTheme)
        ensures
            copy == *self,
    {
        PresentationTheme {
            default_style: self.default_style,
            slide_title: self.slide_title,
            code: CodeBlockStyle {
                alignment: self.code.alignment,
                padding: self.code.padding,
                theme_name: copy_of_text(&self.code.theme_name),
            },
            inline_code: self.inline_code,
            table: self.table,
            block_quote: BlockQuoteStyle {
                alignment: self.block_quote.alignment,
                prefix: copy_of_text(&self.block_quote.prefix),
                colors: self.block_quote.colors,
            },
            headings: HeadingStyles {
                h1: self.headings.h1.duplicate(),
                h2: self.headings.h2.duplicate(),
                h3: self.headings.h3.duplicate(),
                h4: self.headings.h4.duplicate(),
                h5: self.headings.h5.duplicate(),
                h6: self.headings.h6.duplicate(),
            },
            intro_slide: self.intro_slide,
            footer: self.footer.duplicate(),
        }
    }
}

impl Default for PresentationTheme {
    fn default() -> (theme: PresentationTheme)
        ensures
            theme == PresentationTheme::bare(),
    {
        let no_colors = Colors { foreground: None, background: None };
        PresentationTheme {
            default_style: DefaultStyle { margin: None, colors: no_colors },
            slide_title: SlideTitleStyle {
                alignment: None,
                separator: false,
                padding_top: None,
                padding_bottom: None,
                colors: no_colors,
            },
            code: CodeBlockStyle {
                alignment: None,
                padding: PaddingRect { horizontal: None, vertical: None },
                theme_name: None,
            },
            inline_code: InlineCodeStyle { colors: no_colors },
            table: None,
            block_quote: BlockQuoteStyle { alignment: None, prefix: None, colors: no_colors },
            headings: HeadingStyles {
                h1: HeadingStyle { alignment: None, prefix: None, colors: no_colors },
                h2: HeadingStyle { alignment: None, prefix: None, colors: no_colors },
                h3: HeadingStyle { alignment: None, prefix: None, colors: no_colors },
                h4: HeadingStyle { alignment: None, prefix: None, colors: no_colors },
                h5: HeadingStyle { alignment: None, prefix: None, colors: no_colors },
                h6: HeadingStyle { alignment: None, prefix: None, colors: no_colors },
            },
            intro_slide: IntroSlideStyle {
                title: BasicStyle { alignment: None, colors: no_colors },
                subtitle: BasicStyle { alignment: None, colors: no_colors },
                author: AuthorStyle {
                    alignment: None,
                    colors: no_colors,
                    positioning: AuthorPositioning::BelowTitle,
                },
            },
            footer: FooterStyle::Empty,
        }
    }
}

} // verus!
