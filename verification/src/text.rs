//! Styled text, and lines of text that know their width.
use crate::style::Colors;
use crate::style::TextStyle;
use crate::width::display_width;
use crate::width::width;
use vstd::prelude::*;
use vstd::string::StringExecFns;

verus! {

/// A piece of text in one style.
#[derive(Clone, Debug, PartialEq, Eq)]
pub struct StyledText {
    pub text: String,
    pub style: TextStyle,
}

/// A piece of styled text as contracts see it.
pub struct StyledTextView {
    pub text: Seq<char>,
    pub style: TextStyle,
}

impl DeepView for StyledText {
    type V = StyledTextView;

    open spec fn deep_view(&self) -> StyledTextView {
        StyledTextView { text: self.text@, style: self.style }
    }
}

impl StyledTextView {
    /// `text` in the plain style.
    pub open spec fn plain(text: Seq<char>) -> StyledTextView {
        StyledTextView { text, style: TextStyle::plain() }
    }
}

impl StyledText {
    /// `text` in the given style.
    pub fn new(text: String, style: TextStyle) -> (styled: StyledText)
        ensures
            styled.deep_view() == (StyledTextView { text: text@, style }),
            styled.text == text,
            styled.style == style,
    {
        StyledText { text, style }
    }

    /// `text` in the plain style.
    pub fn plain(text: &str) -> (styled: StyledText)
        ensures
            styled.deep_view() == StyledTextView::plain(text@),
    {
        StyledText {
            text: String::from_str(text),
            style: TextStyle {
                bold: false,
                italics: false,
                strikethrough: false,
                code: false,
                colors: Colors { foreground: None, background: None },
            },
        }
    }
}

/// A line of text made of pieces in different styles.
#[derive(Clone, Debug, PartialEq, Eq)]
pub struct Text {
    pub chunks: Vec<StyledText>,
}

impl DeepView for Text {
    type V = Seq<StyledTextView>;

    open spec fn deep_view(&self) -> Seq<StyledTextView> {
        self.chunks.deep_view()
    }
}

/// The characters of all the pieces, one piece after the other.
pub open spec fn content_of(chunks: Seq<StyledTextView>) -> Seq<char>
    decreases chunks.len(),
{
    if chunks.len() == 0 {
        Seq::empty()
    } else {
        content_of(chunks.drop_last()) + chunks.last().text
    }
}

/// Every piece with `style` merged into its own.
pub open spec fn with_style(chunks: Seq<StyledTextView>, style: TextStyle) -> Seq<StyledTextView> {
    Seq::new(
        chunks.len(),
        |i: int| StyledTextView { text: chunks[i].text, style: chunks[i].style.merged(style) },
    )
}

impl Text {
    /// One piece of plain text.
    pub fn plain(text: &str) -> (line: Text)
        ensures
            line.deep_view() == seq![StyledTextView::plain(text@)],
    {
        let mut chunks: Vec<StyledText> = Vec::new();
        chunks.push(StyledText::plain(text));
        assert(chunks.deep_view() =~= seq![StyledTextView::plain(text@)]);
        Text { chunks }
    }

    /// The characters of all the pieces.
    pub fn content(&self) -> (content: String)
        ensures
            content@ == content_of(self.deep_view()),
    {
        let mut content = String::new();
        let mut at: usize = 0;
        while at < self.chunks.len()
            invariant
                at <= self.chunks@.len(),
                content@ == content_of(self.deep_view().take(at as int)),
            decreases self.chunks@.len() - at,
        {
            assert(self.deep_view().take(at + 1).drop_last() == self.deep_view().take(at as int));
            content.append(self.chunks[at].text.as_str());
            at = at + 1;
        }
        assert(self.deep_view().take(at as int) == self.deep_view());
        content
    }

    /// The width of the line when displayed.
    pub fn width(&self) -> (columns: usize)
        ensures
            columns == display_width(content_of(self.deep_view())),
    {
        let content = self.content();
        width(content.as_str())
    }

    /// This line with `style` merged into the style of every piece.
    pub fn styled(&self, style: &TextStyle) -> (line: Text)
        ensures
            line.deep_view() == with_style(self.deep_view(), *style),
    {
        let mut chunks: Vec<StyledText> = Vec::new();
        let mut at: usize = 0;
        while at < self.chunks.len()
            invariant
                at <= self.chunks@.len(),
                chunks.deep_view() == with_style(self.deep_view(), *style).take(at as int),
            decreases self.chunks@.len() - at,
        {
            let chunk = &self.chunks[at];
            let ghost before = chunks.deep_view();
            let ghost wanted = with_style(self.deep_view(), *style);
            let restyled = StyledText { text: chunk.text.clone(), style: chunk.style.merge(style) };
            assert(restyled.deep_view() == wanted[at as int]);
            chunks.push(restyled);
            assert(chunks.deep_view() == before.push(wanted[at as int]));
            assert(wanted.take(at + 1) == wanted.take(at as int).push(wanted[at as int]));
            at = at + 1;
        }
        assert(with_style(self.deep_view(), *style).take(at as int) == with_style(
            self.deep_view(),
            *style,
        ));
        Text { chunks }
    }
}

/// A piece of styled text with its displayed width.
#[derive(Clone, Debug, PartialEq, Eq)]
pub struct WeightedText {
    pub text: StyledText,
    pub width: usize,
}

/// A weighted piece of text as contracts see it.
pub struct WeightedTextView {
    pub text: StyledTextView,
    pub width: usize,
}

impl DeepView for WeightedText {
    type V = WeightedTextView;

    open spec fn deep_view(&self) -> WeightedTextView {
        WeightedTextView { text: self.text.deep_view(), width: self.width }
    }
}

/// `text` with its displayed width.
pub open spec fn weighed(text: StyledTextView) -> WeightedTextView {
    WeightedTextView { text, width: display_width(text.text) }
}

impl WeightedText {
    /// `text` with its displayed width.
    pub fn new(text: StyledText) -> (weighted: WeightedText)
        ensures
            weighted.deep_view() == weighed(text.deep_view()),
    {
        let columns = width(text.text.as_str());
        WeightedText { text, width: columns }
    }
}

/// A line of weighted pieces of text.
#[derive(Clone, Debug, PartialEq, Eq)]
pub struct WeightedLine {
    pub texts: Vec<WeightedText>,
}

impl DeepView for WeightedLine {
    type V = Seq<WeightedTextView>;

    open spec fn deep_view(&self) -> Seq<WeightedTextView> {
        self.texts.deep_view()
    }
}

impl WeightedLine {
    /// A copy of this line.
    pub fn duplicate(&self) -> (copy: WeightedLine)
        ensures
            copy.deep_view() == self.deep_view(),
    {
        let mut texts: Vec<WeightedText> = Vec::new();
        let mut at: usize = 0;
        while at < self.texts.len()
            invariant
                at <= self.texts@.len(),
                texts.deep_view() == self.deep_view().take(at as int),
            decreases self.texts@.len() - at,
        {
            let text = &self.texts[at];
            let ghost before = texts.deep_view();
            let ghost wanted = self.deep_view();
            let copy = WeightedText {
                text: StyledText { text: text.text.text.clone(), style: text.text.style },
                width: text.width,
            };
            assert(copy.deep_view() == wanted[at as int]);
            texts.push(copy);
            assert(texts.deep_view() == before.push(wanted[at as int]));
            assert(wanted.take(at + 1) == wanted.take(at as int).push(wanted[at as int]));
            at = at + 1;
        }
        assert(self.deep_view().take(at as int) == self.deep_view());
        WeightedLine { texts }
    }
}

} // verus!
