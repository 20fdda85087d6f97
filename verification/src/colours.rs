use crate::escape_sequence::sequence::TerminalColour;
use crate::text_styles::text_style::TextStyle;
use vstd::prelude::*;

verus! {

/// Which of the two default colours is asked for.
#[derive(Clone, Copy, Debug, PartialEq, Eq, Structural)]
pub enum DefaultColourVersion {
    Foreground,
    Background,
}

/// A colour as the amounts of red, green and blue in it.
#[derive(Clone, Copy, Debug, PartialEq, Eq, Structural)]
pub struct Rgb {
    pub r: u8,
    pub g: u8,
    pub b: u8,
}

/// The colour in which a colour of the palette is drawn. The default foreground
/// is drawn as white, the default background as black.
pub open spec fn palette(c: TerminalColour, default_colour_version: DefaultColourVersion) -> Rgb {
    match c {
        TerminalColour::Black => Rgb { r: 0, g: 0, b: 0 },
        TerminalColour::Red => Rgb { r: 201, g: 27, b: 0 },
        TerminalColour::Green => Rgb { r: 0, g: 194, b: 0 },
        TerminalColour::Yellow => Rgb { r: 199, g: 196, b: 0 },
        TerminalColour::Blue => Rgb { r: 2, g: 37, b: 199 },
        TerminalColour::Magenta => Rgb { r: 201, g: 48, b: 199 },
        TerminalColour::Cyan => Rgb { r: 0, g: 197, b: 199 },
        TerminalColour::White => Rgb { r: 199, g: 199, b: 199 },
        TerminalColour::BrightBlack => Rgb { r: 103, g: 103, b: 103 },
        TerminalColour::BrightRed => Rgb { r: 255, g: 109, b: 103 },
        TerminalColour::BrightGreen => Rgb { r: 95, g: 249, b: 103 },
        TerminalColour::BrightYellow => Rgb { r: 254, g: 251, b: 103 },
        TerminalColour::BrightBlue => Rgb { r: 104, g: 113, b: 255 },
        TerminalColour::BrightMagenta => Rgb { r: 255, g: 118, b: 255 },
        TerminalColour::BrightCyan => Rgb { r: 95, g: 253, b: 255 },
        TerminalColour::BrightWhite => Rgb { r: 255, g: 254, b: 254 },
        TerminalColour::Default => match default_colour_version {
            DefaultColourVersion::Foreground => Rgb { r: 199, g: 199, b: 199 },
            DefaultColourVersion::Background => Rgb { r: 0, g: 0, b: 0 },
        },
    }
}

/// The colours in which a character of the given style is drawn, the foreground
/// first: the colours of the style, the foreground hidden behind the background
/// where the text is invisible, and the two exchanged where the video is
/// reversed.
pub open spec fn colours_of(style: TextStyle) -> (Rgb, Rgb) {
    let background = palette(style.background, DefaultColourVersion::Background);
    let foreground = if style.invisible {
        background
    } else {
        palette(style.foreground, DefaultColourVersion::Foreground)
    };
    if style.reverse_video {
        (background, foreground)
    } else {
        (foreground, background)
    }
}

/// The default colours are drawn as white on black.
pub proof fn lemma_default_colours()
    ensures
        palette(TerminalColour::Default, DefaultColourVersion::Foreground) == palette(
            TerminalColour::White,
            DefaultColourVersion::Foreground,
        ),
        palette(TerminalColour::Default, DefaultColourVersion::Background) == palette(
            TerminalColour::Black,
            DefaultColourVersion::Background,
        ),
{
}

/// Gives the colour in which a colour of the palette is drawn.
pub fn terminal_colour_to_rgb(c: TerminalColour, default_colour_version: DefaultColourVersion) -> (rgb:
    Rgb)
    ensures
        rgb == palette(c, default_colour_version),
{
    match c {
        TerminalColour::Black => Rgb { r: 0, g: 0, b: 0 },
        TerminalColour::Red => Rgb { r: 201, g: 27, b: 0 },
        TerminalColour::Green => Rgb { r: 0, g: 194, b: 0 },
        TerminalColour::Yellow => Rgb { r: 199, g: 196, b: 0 },
        TerminalColour::Blue => Rgb { r: 2, g: 37, b: 199 },
        TerminalColour::Magenta => Rgb { r: 201, g: 48, b: 199 },
        TerminalColour::Cyan => Rgb { r: 0, g: 197, b: 199 },
        TerminalColour::White => Rgb { r: 199, g: 199, b: 199 },
        TerminalColour::BrightBlack => Rgb { r: 103, g: 103, b: 103 },
        TerminalColour::BrightRed => Rgb { r: 255, g: 109, b: 103 },
        TerminalColour::BrightGreen => Rgb { r: 95, g: 249, b: 103 },
        TerminalColour::BrightYellow => Rgb { r: 254, g: 251, b: 103 },
        TerminalColour::BrightBlue => Rgb { r: 104, g: 113, b: 255 },
        TerminalColour::BrightMagenta => Rgb { r: 255, g: 118, b: 255 },
        TerminalColour::BrightCyan => Rgb { r: 95, g: 253, b: 255 },
        TerminalColour::BrightWhite => Rgb { r: 255, g: 254, b: 254 },
        TerminalColour::Default => match default_colour_version {
            DefaultColourVersion::Foreground => Rgb { r: 199, g: 199, b: 199 },
            DefaultColourVersion::Background => Rgb { r: 0, g: 0, b: 0 },
        },
    }
}

/// Gives the colours in which a character of the given style is drawn, the
/// foreground first.
pub fn drawn_colours(style: &TextStyle) -> (colours: (Rgb, Rgb))
    ensures
        colours == colours_of(*style),
{
    let background: Rgb = terminal_colour_to_rgb(style.background, DefaultColourVersion::Background);
    let foreground: Rgb = if style.invisible {
        background
    } else {
        terminal_colour_to_rgb(style.foreground, DefaultColourVersion::Foreground)
    };
    if style.reverse_video {
        (background, foreground)
    } else {
        (foreground, background)
    }
}

} // verus!
