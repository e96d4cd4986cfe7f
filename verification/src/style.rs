//! Colors and text styles.
use vstd::prelude::*;

verus! {

/// A terminal color.
#[derive(Clone, Copy, Debug, PartialEq, Eq)]
pub enum Color {
    Black,
    DarkGrey,
    Red,
    DarkRed,
    Green,
    DarkGreen,
    Yellow,
    DarkYellow,
    Blue,
    DarkBlue,
    Magenta,
    DarkMagenta,
    Cyan,
    DarkCyan,
    White,
    Grey,
    Rgb { r: u8, g: u8, b: u8 },
}

/// A pair of optional colors: where one is missing the terminal's own is kept.
#[derive(Clone, Copy, Debug, PartialEq, Eq)]
pub struct Colors {
    pub foreground: Option<Color>,
    pub background: Option<Color>,
}

impl Colors {
    /// No color on either side.
    pub open spec fn none() -> Colors {
        Colors { foreground: None, background: None }
    }

    /// These colors, and `other`'s where these have none.
    pub open spec fn or(self, other: Colors) -> Colors {
        Colors {
            foreground: if self.foreground is Some {
                self.foreground
            } else {
                other.foreground
            },
            background: if self.background is Some {
                self.background
            } else {
                other.background
            },
        }
    }
}

impl Default for Colors {
    fn default() -> (colors: Colors)
        ensures
            colors == Colors::none(),
    {
        Colors { foreground: None, background: None }
    }
}

/// How a piece of text is drawn.
#[derive(Clone, Copy, Debug, PartialEq, Eq)]
pub struct TextStyle {
    pub bold: bool,
    pub italics: bool,
    pub strikethrough: bool,
    pub code: bool,
    pub colors: Colors,
}

impl Default for TextStyle {
    fn default() -> (style: TextStyle)
        ensures
            style == TextStyle::plain(),
    {
        TextStyle {
            bold: false,
            italics: false,
            strikethrough: false,
            code: false,
            colors: Colors { foreground: None, background: None },
        }
    }
}

impl TextStyle {
    /// The style without any attribute or color.
    pub open spec fn plain() -> TextStyle {
        TextStyle {
            bold: false,
            italics: false,
            strikethrough: false,
            code: false,
            colors: Colors::none(),
        }
    }

    /// This style with every attribute of `other` added, and with `other`'s
    /// colors where this style has none.
    pub open spec fn merged(self, other: TextStyle) -> TextStyle {
        TextStyle {
            bold: self.bold || other.bold,
            italics: self.italics || other.italics,
            strikethrough: self.strikethrough || other.strikethrough,
            code: self.code || other.code,
            colors: self.colors.or(other.colors),
        }
    }

    /// The plain style in bold with the given colors: the style of titles.
    pub open spec fn title(colors: Colors) -> TextStyle {
        TextStyle { bold: true, colors, ..TextStyle::plain() }
    }

    /// The plain style with the given colors.
    pub open spec fn colored(colors: Colors) -> TextStyle {
        TextStyle { colors, ..TextStyle::plain() }
    }

    /// This style in bold.
    pub fn bold(self) -> (style: TextStyle)
        ensures
            style == (TextStyle { bold: true, ..self }),
    {
        TextStyle { bold: true, ..self }
    }

    /// This style in italics.
    pub fn italics(self) -> (style: TextStyle)
        ensures
            style == (TextStyle { italics: true, ..self }),
    {
        TextStyle { italics: true, ..self }
    }

    /// This style struck through.
    pub fn strikethrough(self) -> (style: TextStyle)
        ensures
            style == (TextStyle { strikethrough: true, ..self }),
    {
        TextStyle { strikethrough: true, ..self }
    }

    /// This style marked as inline code.
    pub fn code(self) -> (style: TextStyle)
        ensures
            style == (TextStyle { code: true, ..self }),
    {
        TextStyle { code: true, ..self }
    }

    /// This style with the given colors.
    pub fn colors(self, colors: Colors) -> (style: TextStyle)
        ensures
            style == (TextStyle { colors, ..self }),
    {
        TextStyle { colors, ..self }
    }

    /// Whether the text is inline code.
    pub fn is_code(&self) -> (code: bool)
        ensures
            code == self.code,
    {
        self.code
    }

    /// This style with `other` merged into it.
    pub fn merge(self, other: &TextStyle) -> (style: TextStyle)
        ensures
            style == self.merged(*other),
    {
        TextStyle {
            bold: self.bold || other.bold,
            italics: self.italics || other.italics,
            strikethrough: self.strikethrough || other.strikethrough,
            code: self.code || other.code,
            colors: Colors {
                foreground: if self.colors.foreground.is_some() {
                    self.colors.foreground
                } else {
                    other.colors.foreground
                },
                background: if self.colors.background.is_some() {
                    self.colors.background
                } else {
                    other.colors.background
                },
            },
        }
    }
}

} // verus!
