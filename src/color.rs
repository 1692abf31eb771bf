use vstd::prelude::*;

verus! {

/// An RGBA color with eight bits per channel.
#[derive(Clone, Copy, Debug, PartialEq, Eq, Structural)]
pub struct Color {
    pub red: u8,
    pub green: u8,
    pub blue: u8,
    pub alpha: u8,
}

impl Color {
    pub fn black() -> (r: Color)
        ensures
            r == (Color { red: 0, green: 0, blue: 0, alpha: 255 }),
    {
        Color { red: 0, green: 0, blue: 0, alpha: 255 }
    }

    pub fn white() -> (r: Color)
        ensures
            r == (Color { red: 255, green: 255, blue: 255, alpha: 255 }),
    {
        Color { red: 255, green: 255, blue: 255, alpha: 255 }
    }
}

/// Where a tool takes a color from.
#[derive(Clone, Copy, Debug, PartialEq, Eq, Structural)]
pub enum ToolColorType {
    Primary,
    Secondary,
    Custom,
    NoColor,
}

/// A tool's choice of color: a source, a custom color, and the working colors
/// of the palette as they were last reported to the tool.
#[derive(Clone, Copy, Debug, PartialEq, Eq, Structural)]
pub struct ToolColorOptions {
    pub custom_color: Option<Color>,
    pub primary_working_color: Option<Color>,
    pub secondary_working_color: Option<Color>,
    pub color_type: ToolColorType,
}

impl ToolColorOptions {
    /// The color that the options select.
    pub open spec fn active_color_spec(self) -> Option<Color> {
        match self.color_type {
            ToolColorType::Primary => self.primary_working_color,
            ToolColorType::Secondary => self.secondary_working_color,
            ToolColorType::Custom => self.custom_color,
            ToolColorType::NoColor => None,
        }
    }

    /// Options that select `color_type`, with black as custom and primary color
    /// and white as secondary color.
    pub fn new_with_type(color_type: ToolColorType) -> (r: ToolColorOptions)
        ensures
            r.color_type == color_type,
            r.custom_color == Some(Color { red: 0, green: 0, blue: 0, alpha: 255 }),
            r.primary_working_color == Some(Color { red: 0, green: 0, blue: 0, alpha: 255 }),
            r.secondary_working_color == Some(
                Color { red: 255, green: 255, blue: 255, alpha: 255 },
            ),
    {
        ToolColorOptions {
            custom_color: Some(Color::black()),
            primary_working_color: Some(Color::black()),
            secondary_working_color: Some(Color::white()),
            color_type,
        }
    }

    /// Options that select no color.
    pub fn new_none() -> (r: ToolColorOptions)
        ensures
            r == ToolColorOptions::new_with_type_spec(ToolColorType::NoColor),
    {
        ToolColorOptions::new_with_type(ToolColorType::NoColor)
    }

    /// Options that select the primary working color.
    pub fn new_primary() -> (r: ToolColorOptions)
        ensures
            r == ToolColorOptions::new_with_type_spec(ToolColorType::Primary),
    {
        ToolColorOptions::new_with_type(ToolColorType::Primary)
    }

    pub open spec fn new_with_type_spec(color_type: ToolColorType) -> ToolColorOptions {
        ToolColorOptions {
            custom_color: Some(Color { red: 0, green: 0, blue: 0, alpha: 255 }),
            primary_working_color: Some(Color { red: 0, green: 0, blue: 0, alpha: 255 }),
            secondary_working_color: Some(Color { red: 255, green: 255, blue: 255, alpha: 255 }),
            color_type,
        }
    }

    /// The color that the options select, if any.
    pub fn active_color(&self) -> (r: Option<Color>)
        ensures
            r == self.active_color_spec(),
    {
        match self.color_type {
            ToolColorType::Primary => self.primary_working_color,
            ToolColorType::Secondary => self.secondary_working_color,
            ToolColorType::Custom => self.custom_color,
            ToolColorType::NoColor => None,
        }
    }
}

} // verus!
