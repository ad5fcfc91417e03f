//! The looks of buttons and containers.
//!
//! A colour channel is held in hundredths of its full strength, from 0 to 100, and a
//! length in whole pixels.

use vstd::prelude::*;

verus! {

/// A colour by its red, green and blue channels, each in hundredths.
#[derive(Debug, Clone, Copy, PartialEq, Eq, Structural)]
pub struct Rgb {
    pub red: u8,
    pub green: u8,
    pub blue: u8,
}

impl Rgb {
    /// No channel is above full strength.
    pub open spec fn well_formed(self) -> bool {
        self.red <= 100 && self.green <= 100 && self.blue <= 100
    }
}

/// How a button looks.
#[derive(Debug, Clone, Copy, PartialEq, Eq, Structural)]
pub struct ButtonAppearance {
    pub background: Rgb,
    pub border_radius: u8,
    pub text_color: Rgb,
}

/// How a container looks.
#[derive(Debug, Clone, Copy, PartialEq, Eq, Structural)]
pub struct ContainerAppearance {
    pub background: Rgb,
    pub text_color: Rgb,
    pub border_radius: u8,
    pub border_width: u8,
    pub border_color: Rgb,
}

/// The kinds of button.
#[derive(Debug, Clone, Copy, PartialEq, Eq, Structural)]
pub enum ButtonType {
    Primary,
    Secondary,
    Danger,
}

/// White, the colour of every button's text.
pub open spec fn white() -> Rgb {
    Rgb { red: 100, green: 100, blue: 100 }
}

impl ButtonType {
    /// The background of a button that is not pointed at: blue for a primary button,
    /// dark grey for a secondary one, red for one that warns.
    pub open spec fn resting_background(self) -> Rgb {
        match self {
            ButtonType::Primary => Rgb { red: 20, green: 50, blue: 80 },
            ButtonType::Secondary => Rgb { red: 30, green: 30, blue: 30 },
            ButtonType::Danger => Rgb { red: 80, green: 20, blue: 20 },
        }
    }

    /// The background of a button that is pointed at.
    pub open spec fn hovered_background(self) -> Rgb {
        match self {
            ButtonType::Primary => Rgb { red: 30, green: 60, blue: 90 },
            ButtonType::Secondary => Rgb { red: 40, green: 40, blue: 40 },
            ButtonType::Danger => Rgb { red: 90, green: 30, blue: 30 },
        }
    }

    /// The look of a button that is not pointed at: its resting background, corners
    /// rounded by four pixels, white text.
    pub open spec fn resting_look(self) -> ButtonAppearance {
        ButtonAppearance {
            background: self.resting_background(),
            border_radius: 4,
            text_color: white(),
        }
    }

    /// The look of a button that is pointed at: the resting look on another background.
    pub open spec fn hovered_look(self) -> ButtonAppearance {
        ButtonAppearance { background: self.hovered_background(), ..self.resting_look() }
    }

    /// The look of a button that is not pointed at.
    pub fn active(&self) -> (look: ButtonAppearance)
        ensures
            look == self.resting_look(),
    {
        let background = match self {
            ButtonType::Primary => Rgb { red: 20, green: 50, blue: 80 },
            ButtonType::Secondary => Rgb { red: 30, green: 30, blue: 30 },
            ButtonType::Danger => Rgb { red: 80, green: 20, blue: 20 },
        };
        ButtonAppearance {
            background,
            border_radius: 4,
            text_color: Rgb { red: 100, green: 100, blue: 100 },
        }
    }

    /// The look of a button that is pointed at.
    pub fn hovered(&self) -> (look: ButtonAppearance)
        ensures
            look == self.hovered_look(),
    {
        let active = self.active();
        let background = match self {
            ButtonType::Primary => Rgb { red: 30, green: 60, blue: 90 },
            ButtonType::Secondary => Rgb { red: 40, green: 40, blue: 40 },
            ButtonType::Danger => Rgb { red: 90, green: 30, blue: 30 },
        };
        ButtonAppearance { background, ..active }
    }
}

/// The style of the application's containers.
#[derive(Debug, Clone, Copy, PartialEq, Eq, Structural)]
pub struct ContainerStyle {}

impl ContainerStyle {
    /// The look of a container: a light grey ground, near-black text, and a thin grey
    /// border with rounded corners.
    pub fn appearance(&self) -> (look: ContainerAppearance)
        ensures
            look == (ContainerAppearance {
                background: Rgb { red: 95, green: 95, blue: 95 },
                text_color: Rgb { red: 10, green: 10, blue: 10 },
                border_radius: 5,
                border_width: 1,
                border_color: Rgb { red: 80, green: 80, blue: 80 },
            }),
    {
        ContainerAppearance {
            background: Rgb { red: 95, green: 95, blue: 95 },
            text_color: Rgb { red: 10, green: 10, blue: 10 },
            border_radius: 5,
            border_width: 1,
            border_color: Rgb { red: 80, green: 80, blue: 80 },
        }
    }
}

/// Pointing at a button makes every channel of its background ten hundredths
/// stronger, and no channel leaves its range.
pub proof fn law_hover_lightens(kind: ButtonType)
    ensures
        kind.hovered_background().red == kind.resting_background().red + 10,
        kind.hovered_background().green == kind.resting_background().green + 10,
        kind.hovered_background().blue == kind.resting_background().blue + 10,
        kind.resting_background().well_formed(),
        kind.hovered_background().well_formed(),
{
}

} // verus!
