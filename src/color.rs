use vstd::prelude::*;
use vstd::string::*;

verus! {

/// The fixed palette that a color preference is chosen from.
#[derive(Clone, Copy, Debug, PartialEq, Eq, Structural)]
pub enum PaletteColor {
    Black,
    Blue,
    Red,
    Green,
    White,
    Cyan,
    Yellow,
    Magenta,
}

/// An RGBA color with one byte per channel.
#[derive(Clone, Copy, Debug, PartialEq, Eq, Structural)]
pub struct Rgba8 {
    pub r: u8,
    pub g: u8,
    pub b: u8,
    pub a: u8,
}

/// The channels of each palette color: every channel is fully off or fully
/// on, and every color is opaque.
pub open spec fn palette_rgba(p: PaletteColor) -> Rgba8 {
    match p {
        PaletteColor::Black => Rgba8 { r: 0, g: 0, b: 0, a: 255 },
        PaletteColor::Blue => Rgba8 { r: 0, g: 0, b: 255, a: 255 },
        PaletteColor::Red => Rgba8 { r: 255, g: 0, b: 0, a: 255 },
        PaletteColor::Green => Rgba8 { r: 0, g: 255, b: 0, a: 255 },
        PaletteColor::White => Rgba8 { r: 255, g: 255, b: 255, a: 255 },
        PaletteColor::Cyan => Rgba8 { r: 0, g: 255, b: 255, a: 255 },
        PaletteColor::Yellow => Rgba8 { r: 255, g: 255, b: 0, a: 255 },
        PaletteColor::Magenta => Rgba8 { r: 255, g: 0, b: 255, a: 255 },
    }
}

/// The label shown for each palette color.
pub open spec fn palette_name(p: PaletteColor) -> Seq<char> {
    match p {
        PaletteColor::Black => "Black"@,
        PaletteColor::Blue => "Blue"@,
        PaletteColor::Red => "Red"@,
        PaletteColor::Green => "Green"@,
        PaletteColor::White => "White"@,
        PaletteColor::Cyan => "Cyan"@,
        PaletteColor::Yellow => "Yellow"@,
        PaletteColor::Magenta => "Magenta"@,
    }
}

/// The palette in the order in which it is offered.
pub open spec fn palette_order() -> Seq<PaletteColor> {
    seq![
        PaletteColor::Black,
        PaletteColor::Blue,
        PaletteColor::Red,
        PaletteColor::Green,
        PaletteColor::White,
        PaletteColor::Cyan,
        PaletteColor::Yellow,
        PaletteColor::Magenta,
    ]
}

impl PaletteColor {
    /// Every palette color, in the order in which it is offered.
    pub fn all() -> (r: Vec<PaletteColor>)
        ensures
            r@ == palette_order(),
    {
        let r = vec![
            PaletteColor::Black,
            PaletteColor::Blue,
            PaletteColor::Red,
            PaletteColor::Green,
            PaletteColor::White,
            PaletteColor::Cyan,
            PaletteColor::Yellow,
            PaletteColor::Magenta,
        ];
        assert(r@ =~= palette_order());
        r
    }

    pub fn rgba(self) -> (r: Rgba8)
        ensures
            r == palette_rgba(self),
    {
        match self {
            PaletteColor::Black => Rgba8 { r: 0, g: 0, b: 0, a: 255 },
            PaletteColor::Blue => Rgba8 { r: 0, g: 0, b: 255, a: 255 },
            PaletteColor::Red => Rgba8 { r: 255, g: 0, b: 0, a: 255 },
            PaletteColor::Green => Rgba8 { r: 0, g: 255, b: 0, a: 255 },
            PaletteColor::White => Rgba8 { r: 255, g: 255, b: 255, a: 255 },
            PaletteColor::Cyan => Rgba8 { r: 0, g: 255, b: 255, a: 255 },
            PaletteColor::Yellow => Rgba8 { r: 255, g: 255, b: 0, a: 255 },
            PaletteColor::Magenta => Rgba8 { r: 255, g: 0, b: 255, a: 255 },
        }
    }

    pub fn name(self) -> (r: String)
        ensures
            r@ == palette_name(self),
    {
        match self {
            PaletteColor::Black => String::from_str("Black"),
            PaletteColor::Blue => String::from_str("Blue"),
            PaletteColor::Red => String::from_str("Red"),
            PaletteColor::Green => String::from_str("Green"),
            PaletteColor::White => String::from_str("White"),
            PaletteColor::Cyan => String::from_str("Cyan"),
            PaletteColor::Yellow => String::from_str("Yellow"),
            PaletteColor::Magenta => String::from_str("Magenta"),
        }
    }
}

/// The content of a color preference.
pub struct ColorView {
    pub name: Seq<char>,
    pub color: Rgba8,
}

/// The preference that selects palette color `p`.
pub open spec fn palette_view(p: PaletteColor) -> ColorView {
    ColorView { name: palette_name(p), color: palette_rgba(p) }
}

/// A color preference: a palette label and the color it stands for.
pub struct Color {
    pub color: Rgba8,
    pub name: String,
}

impl View for Color {
    type V = ColorView;

    open spec fn view(&self) -> ColorView {
        ColorView { name: self.name@, color: self.color }
    }
}

impl Clone for Color {
    fn clone(&self) -> (r: Self)
        ensures
            r == *self,
    {
        Color { color: self.color, name: self.name.clone() }
    }
}

impl PartialEq for Color {
    fn eq(&self, other: &Color) -> (r: bool) {
        self.color == other.color && self.name == other.name
    }
}

impl vstd::std_specs::cmp::PartialEqSpecImpl for Color {
    open spec fn obeys_eq_spec() -> bool {
        true
    }

    open spec fn eq_spec(&self, other: &Color) -> bool {
        self@ == other@
    }
}

impl Color {
    /// The default preference: black.
    pub fn new() -> (r: Color)
        ensures
            r@ == palette_view(PaletteColor::Black),
    {
        Color::from_palette(PaletteColor::Black)
    }

    pub fn from_palette(p: PaletteColor) -> (r: Color)
        ensures
            r@ == palette_view(p),
    {
        Color { color: p.rgba(), name: p.name() }
    }
}

} // verus!
