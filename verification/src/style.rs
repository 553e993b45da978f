//! How the colours and rarities of a build are shown.

use vstd::prelude::*;

verus! {

/// The class that shows one of the ten named colours of a build's text;
/// none for the normal colour and for a number that names no colour.
pub open spec fn class_of_color(name: u8) -> Seq<char> {
    if name == 0 {
        "text-slate-900"@
    } else if name == 1 {
        "text-red-600"@
    } else if name == 2 {
        "text-green-600"@
    } else if name == 3 {
        "text-blue-600"@
    } else if name == 4 {
        "text-yellow-400"@
    } else if name == 5 {
        "text-fuchsia-500"@
    } else if name == 6 {
        "text-cyan-400"@
    } else if name == 8 {
        "text-zinc-400"@
    } else if name == 9 {
        "text-zinc-600"@
    } else {
        ""@
    }
}

pub fn name_to_class(name: u8) -> (out: &'static str)
    ensures
        out@ == class_of_color(name),
{
    match name {
        0 => "text-slate-900",
        1 => "text-red-600",
        2 => "text-green-600",
        3 => "text-blue-600",
        4 => "text-yellow-400",
        5 => "text-fuchsia-500",
        6 => "text-cyan-400",
        8 => "text-zinc-400",
        9 => "text-zinc-600",
        _ => "",
    }
}

/// The colour of a run of text in a build.
#[derive(Debug)]
pub enum Color<'a> {
    /// Six hexadecimal digits.
    Hex(&'a str),
    /// One of the named colours, by its number.
    Named(u8),
    NoColor,
}

/// How a run of text is styled.
#[derive(Debug)]
pub enum Style {
    Class(&'static str),
    Style(String),
    NoStyle,
}

/// A style as values.
pub enum StyleView {
    Class(Seq<char>),
    Style(Seq<char>),
    NoStyle,
}

impl View for Style {
    type V = StyleView;

    open spec fn view(&self) -> StyleView {
        match self {
            Style::Class(class) => StyleView::Class(class@),
            Style::Style(style) => StyleView::Style(style@),
            Style::NoStyle => StyleView::NoStyle,
        }
    }
}

/// The style of a colour: a rule of its own for a colour given in digits,
/// a class for a named colour.
pub open spec fn style_of(color: Color<'_>) -> StyleView {
    match color {
        Color::Hex(hex) => StyleView::Style("color: #"@ + hex@),
        Color::Named(name) => StyleView::Class(class_of_color(name)),
        Color::NoColor => StyleView::NoStyle,
    }
}

pub fn color_to_style(color: Color<'_>) -> (out: Style)
    ensures
        out@ == style_of(color),
{
    match color {
        Color::Hex(hex) => {
            let mut style = "color: #".to_owned();
            style.append(hex);
            Style::Style(style)
        },
        Color::Named(name) => Style::Class(name_to_class(name)),
        Color::NoColor => Style::NoStyle,
    }
}

/// How rare an item is.
#[derive(Debug, Copy, Clone, PartialEq, Eq, Structural)]
pub enum Rarity {
    Normal,
    Magic,
    Rare,
    Unique,
}

impl Rarity {
    /// The name of the rarity in the names of the header images.
    pub open spec fn text(self) -> Seq<char> {
        match self {
            Rarity::Normal => "White"@,
            Rarity::Magic => "Magic"@,
            Rarity::Rare => "Rare"@,
            Rarity::Unique => "Unique"@,
        }
    }

    /// The colour of the name of an item of the rarity.
    pub open spec fn color(self) -> Seq<char> {
        match self {
            Rarity::Normal => "#c8c8c8"@,
            Rarity::Magic => "#88f"@,
            Rarity::Rare => "#ff7"@,
            Rarity::Unique => "#af6025"@,
        }
    }
}

pub fn rarity_str(rarity: Rarity) -> (out: &'static str)
    ensures
        out@ == rarity.text(),
{
    match rarity {
        Rarity::Normal => "White",
        Rarity::Magic => "Magic",
        Rarity::Rare => "Rare",
        Rarity::Unique => "Unique",
    }
}

/// Where the images of item headers are kept, up to the name of the rarity.
pub open spec fn header_base() -> Seq<char> {
    "https://assets.pobb.in/1/Art/2DArt/UIImages/InGame/ItemsHeader"@
}

/// The style of the header of an item: the colour of its rarity, and the
/// three images of its rarity as background, the left and the right one at
/// their ends and the middle one repeated between.
pub open spec fn header_style_text(rarity: Rarity) -> Seq<char> {
    "color: "@ + rarity.color() + "; background: url("@ + header_base() + rarity.text()
        + "Left.webp) top left / contain no-repeat, url("@ + header_base() + rarity.text()
        + "Right.webp) top right / contain no-repeat, url("@ + header_base() + rarity.text()
        + "Middle.webp) top left / contain repeat-x"@
}

pub fn header_style(rarity: Rarity) -> (out: String)
    ensures
        out@ == header_style_text(rarity),
{
    let name = rarity_str(rarity);
    let color = match rarity {
        Rarity::Normal => "#c8c8c8",
        Rarity::Magic => "#88f",
        Rarity::Rare => "#ff7",
        Rarity::Unique => "#af6025",
    };
    let base = "https://assets.pobb.in/1/Art/2DArt/UIImages/InGame/ItemsHeader";
    let mut out = "color: ".to_owned();
    out.append(color);
    out.append("; background: url(");
    out.append(base);
    out.append(name);
    out.append("Left.webp) top left / contain no-repeat, url(");
    out.append(base);
    out.append(name);
    out.append("Right.webp) top right / contain no-repeat, url(");
    out.append(base);
    out.append(name);
    out.append("Middle.webp) top left / contain repeat-x");
    out
}

} // verus!
