//! Built-in icon glyphs.
use vstd::prelude::*;

verus! {

/// The icons that Frame draws from a single Unicode glyph.
#[derive(Debug, Clone, Copy, PartialEq, Eq, Structural)]
pub enum IconKind {
    ArrowLeft,
    ArrowRight,
    ArrowUp,
    ArrowDown,
    Check,
    Close,
    Plus,
    Minus,
    Search,
    Settings,
    Star,
    Heart,
    Menu,
    Home,
    Back,
    Forward,
}

/// The glyph that stands for an icon.
pub open spec fn icon_glyph(kind: IconKind) -> char {
    match kind {
        IconKind::ArrowLeft => '\u{2190}',
        IconKind::ArrowRight => '\u{2192}',
        IconKind::ArrowUp => '\u{2191}',
        IconKind::ArrowDown => '\u{2193}',
        IconKind::Check => '\u{2713}',
        IconKind::Close => '\u{2715}',
        IconKind::Plus => '+',
        IconKind::Minus => '\u{2212}',
        IconKind::Search => '\u{2315}',
        IconKind::Settings => '\u{2699}',
        IconKind::Star => '\u{2605}',
        IconKind::Heart => '\u{2665}',
        IconKind::Menu => '\u{2630}',
        IconKind::Home => '\u{2302}',
        IconKind::Back => '\u{25c4}',
        IconKind::Forward => '\u{25ba}',
    }
}

/// No two icons share a glyph, and the four arrows are the arrows of the
/// Unicode arrow block (U+2190 to U+2193), each pointing its own way.
pub proof fn law_icons_told_apart(a: IconKind, b: IconKind)
    ensures
        icon_glyph(a) == icon_glyph(b) ==> a == b,
        icon_glyph(IconKind::ArrowLeft) == '\u{2190}',
        icon_glyph(IconKind::ArrowUp) == '\u{2191}',
        icon_glyph(IconKind::ArrowRight) == '\u{2192}',
        icon_glyph(IconKind::ArrowDown) == '\u{2193}',
{
}

impl IconKind {
    /// The text drawn for this icon: its glyph, alone.
    pub fn symbol(self) -> (s: &'static str)
        ensures
            s@ == seq![icon_glyph(self)],
    {
        match self {
            IconKind::ArrowLeft => {
                proof { reveal_strlit("\u{2190}"); }
                "\u{2190}"
            },
            IconKind::ArrowRight => {
                proof { reveal_strlit("\u{2192}"); }
                "\u{2192}"
            },
            IconKind::ArrowUp => {
                proof { reveal_strlit("\u{2191}"); }
                "\u{2191}"
            },
            IconKind::ArrowDown => {
                proof { reveal_strlit("\u{2193}"); }
                "\u{2193}"
            },
            IconKind::Check => {
                proof { reveal_strlit("\u{2713}"); }
                "\u{2713}"
            },
            IconKind::Close => {
                proof { reveal_strlit("\u{2715}"); }
                "\u{2715}"
            },
            IconKind::Plus => {
                proof { reveal_strlit("+"); }
                "+"
            },
            IconKind::Minus => {
                proof { reveal_strlit("\u{2212}"); }
                "\u{2212}"
            },
            IconKind::Search => {
                proof { reveal_strlit("\u{2315}"); }
                "\u{2315}"
            },
            IconKind::Settings => {
                proof { reveal_strlit("\u{2699}"); }
                "\u{2699}"
            },
            IconKind::Star => {
                proof { reveal_strlit("\u{2605}"); }
                "\u{2605}"
            },
            IconKind::Heart => {
                proof { reveal_strlit("\u{2665}"); }
                "\u{2665}"
            },
            IconKind::Menu => {
                proof { reveal_strlit("\u{2630}"); }
                "\u{2630}"
            },
            IconKind::Home => {
                proof { reveal_strlit("\u{2302}"); }
                "\u{2302}"
            },
            IconKind::Back => {
                proof { reveal_strlit("\u{25c4}"); }
                "\u{25c4}"
            },
            IconKind::Forward => {
                proof { reveal_strlit("\u{25ba}"); }
                "\u{25ba}"
            },
        }
    }
}

} // verus!
