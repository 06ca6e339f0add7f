//! Colour theme, highlight styling, and sidebar icons.

use crate::colour::Rgb;
use vstd::prelude::*;

verus! {

/// Colour theme used to derive the interface's palette.
#[derive(Debug, Clone, Copy, PartialEq, Eq, Structural)]
pub enum Theme {
    /// The mauve variant of the catppuccin palette.
    Catppuccin,
}

impl Default for Theme {
    fn default() -> (r: Theme)
        ensures
            r == Theme::Catppuccin,
    {
        Theme::Catppuccin
    }
}

/// The colours the interface is drawn with.
#[derive(Debug, Clone, Copy, PartialEq, Eq, Structural)]
pub struct Palette {
    pub accent: Rgb,
    pub text: Rgb,
    pub subtext: Rgb,
    pub muted: Rgb,
    pub background: Rgb,
}

/// The palette of a theme.
pub open spec fn spec_palette(theme: Theme) -> Palette {
    match theme {
        Theme::Catppuccin => Palette {
            accent: Rgb { r: 203, g: 166, b: 247 },
            text: Rgb { r: 205, g: 214, b: 244 },
            subtext: Rgb { r: 166, g: 173, b: 200 },
            muted: Rgb { r: 88, g: 91, b: 112 },
            background: Rgb { r: 17, g: 17, b: 27 },
        },
    }
}

impl Palette {
    pub fn from_theme(theme: &Theme) -> (r: Palette)
        ensures
            r == spec_palette(*theme),
    {
        match theme {
            Theme::Catppuccin => Palette {
                accent: Rgb { r: 203, g: 166, b: 247 },
                text: Rgb { r: 205, g: 214, b: 244 },
                subtext: Rgb { r: 166, g: 173, b: 200 },
                muted: Rgb { r: 88, g: 91, b: 112 },
                background: Rgb { r: 17, g: 17, b: 27 },
            },
        }
    }
}

impl Default for Palette {
    fn default() -> (r: Palette)
        ensures
            r == spec_palette(Theme::Catppuccin),
    {
        Palette::from_theme(&Theme::Catppuccin)
    }
}

/// The active and hovered flags of one block, for styling.
#[derive(Debug, Clone, Copy, PartialEq, Eq, Structural)]
pub struct Highlight {
    pub is_active: bool,
    pub is_hovered: bool,
}

impl Highlight {
    pub fn new(is_active: bool, is_hovered: bool) -> (r: Highlight)
        ensures
            r.is_active == is_active,
            r.is_hovered == is_hovered,
    {
        Highlight { is_active, is_hovered }
    }

    /// The colour a block with this highlight is drawn in: the accent when
    /// active, the subtext when merely hovered, the muted colour otherwise.
    pub fn get(&self, palette: &Palette) -> (r: Rgb)
        ensures
            r == (if self.is_active {
                palette.accent
            } else if self.is_hovered {
                palette.subtext
            } else {
                palette.muted
            }),
    {
        if self.is_active {
            palette.accent
        } else if self.is_hovered {
            palette.subtext
        } else {
            palette.muted
        }
    }
}

/// The sidebar icons, drawn from a nerd font.
#[derive(Debug, Clone, Copy, PartialEq, Eq, Structural)]
pub enum IconKind {
    Library,
    Home,
}

/// An icon and its active state for styling.
#[derive(Debug, Clone, Copy, PartialEq, Eq, Structural)]
pub struct Icon {
    pub kind: IconKind,
    pub is_active: bool,
}

/// The nerd-font glyph of an icon in its current state.
pub open spec fn spec_icon_symbol(kind: IconKind, is_active: bool) -> char {
    match kind {
        IconKind::Library => if is_active {
            '\u{f02e}'
        } else {
            '\u{eaa5}'
        },
        IconKind::Home => if is_active {
            '\u{f4e2}'
        } else {
            '\u{f46d}'
        },
    }
}

impl Icon {
    pub fn new(kind: IconKind) -> (r: Icon)
        ensures
            r.kind == kind,
            r.is_active == false,
    {
        Icon { kind, is_active: false }
    }

    pub fn is_active(&self) -> (r: bool)
        ensures
            r == self.is_active,
    {
        self.is_active
    }

    pub fn set_active(&mut self, active: bool)
        ensures
            *final(self) == (Icon { is_active: active, ..*old(self) }),
    {
        self.is_active = active
    }

    /// The glyph this icon is drawn as.
    pub fn symbol(&self) -> (r: char)
        ensures
            r == spec_icon_symbol(self.kind, self.is_active),
    {
        match (self.kind, self.is_active) {
            (IconKind::Library, false) => '\u{eaa5}',
            (IconKind::Library, true) => '\u{f02e}',
            (IconKind::Home, false) => '\u{f46d}',
            (IconKind::Home, true) => '\u{f4e2}',
        }
    }
}

} // verus!
