//! The colours of the setup window in its two themes.

use vstd::prelude::*;
use crate::theme::Theme;

verus! {

/// A colour: red, green, blue and alpha, the first three already multiplied
/// by the alpha.
#[derive(Clone, Copy, Debug, PartialEq, Eq, Structural)]
pub struct Rgba {
    pub r: u8,
    pub g: u8,
    pub b: u8,
    pub a: u8,
}

/// The opaque colour with the given parts.
pub open spec fn rgb(r: u8, g: u8, b: u8) -> Rgba {
    Rgba { r, g, b, a: 255 }
}

/// The colour with the given parts.
pub open spec fn rgba(r: u8, g: u8, b: u8, a: u8) -> Rgba {
    Rgba { r, g, b, a }
}

impl Rgba {
    pub fn opaque(r: u8, g: u8, b: u8) -> (colour: Rgba)
        ensures
            colour == rgb(r, g, b),
    {
        Rgba { r, g, b, a: 255 }
    }

    pub fn premultiplied(r: u8, g: u8, b: u8, a: u8) -> (colour: Rgba)
        ensures
            colour == rgba(r, g, b, a),
    {
        Rgba { r, g, b, a }
    }
}

/// The colours of the window's parts.
#[derive(Clone, Copy, Debug, PartialEq, Eq, Structural)]
pub struct AppStyle {
    pub bg_fill: Rgba,
    pub card_bg: Rgba,
    pub card_stroke: Rgba,
    pub text_primary: Rgba,
    pub text_secondary: Rgba,
    pub accent_color: Rgba,
    pub accent_gradient_start: Rgba,
    pub accent_gradient_end: Rgba,
    pub input_bg: Rgba,
    pub input_border: Rgba,
    pub input_text: Rgba,
    pub input_hint: Rgba,
}

/// The colours behind the window's content: the fill and three soft discs.
#[derive(Clone, Copy, Debug, PartialEq, Eq, Structural)]
pub struct Backdrop {
    pub base: Rgba,
    pub first_blob: Rgba,
    pub second_blob: Rgba,
    pub third_blob: Rgba,
}

/// What colours the status line.
#[derive(Clone, Copy, Debug, PartialEq, Eq, Structural)]
pub enum StatusType {
    Info,
    Success,
    Error,
}

impl AppStyle {
    /// The colours of a theme.
    pub open spec fn of_theme(theme: Theme) -> AppStyle {
        match theme {
            Theme::Dark => AppStyle {
                bg_fill: rgb(8, 8, 10),
                card_bg: rgba(20, 20, 25, 200),
                card_stroke: rgba(255, 255, 255, 20),
                text_primary: rgb(255, 255, 255),
                text_secondary: rgb(161, 161, 170),
                accent_color: rgb(99, 102, 241),
                accent_gradient_start: rgb(99, 102, 241),
                accent_gradient_end: rgb(168, 85, 247),
                input_bg: rgba(30, 30, 35, 180),
                input_border: rgba(255, 255, 255, 15),
                input_text: rgb(228, 228, 231),
                input_hint: rgb(82, 82, 91),
            },
            Theme::Light => AppStyle {
                bg_fill: rgb(245, 245, 250),
                card_bg: rgba(255, 255, 255, 220),
                card_stroke: rgba(0, 0, 0, 15),
                text_primary: rgb(15, 23, 42),
                text_secondary: rgb(71, 85, 105),
                accent_color: rgb(79, 70, 229),
                accent_gradient_start: rgb(79, 70, 229),
                accent_gradient_end: rgb(147, 51, 234),
                input_bg: rgba(240, 240, 245, 200),
                input_border: rgba(0, 0, 0, 10),
                input_text: rgb(15, 23, 42),
                input_hint: rgb(148, 163, 184),
            },
        }
    }

    /// The colour of the status line.
    pub open spec fn status_colour_of(self, status: StatusType) -> Rgba {
        match status {
            StatusType::Success => rgb(52, 211, 153),
            StatusType::Error => rgb(248, 113, 113),
            StatusType::Info => self.text_secondary,
        }
    }

    pub fn from_theme(theme: Theme) -> (style: AppStyle)
        ensures
            style == AppStyle::of_theme(theme),
    {
        match theme {
            Theme::Dark => AppStyle {
                bg_fill: Rgba::opaque(8, 8, 10),
                card_bg: Rgba::premultiplied(20, 20, 25, 200),
                card_stroke: Rgba::premultiplied(255, 255, 255, 20),
                text_primary: Rgba::opaque(255, 255, 255),
                text_secondary: Rgba::opaque(161, 161, 170),
                accent_color: Rgba::opaque(99, 102, 241),
                accent_gradient_start: Rgba::opaque(99, 102, 241),
                accent_gradient_end: Rgba::opaque(168, 85, 247),
                input_bg: Rgba::premultiplied(30, 30, 35, 180),
                input_border: Rgba::premultiplied(255, 255, 255, 15),
                input_text: Rgba::opaque(228, 228, 231),
                input_hint: Rgba::opaque(82, 82, 91),
            },
            Theme::Light => AppStyle {
                bg_fill: Rgba::opaque(245, 245, 250),
                card_bg: Rgba::premultiplied(255, 255, 255, 220),
                card_stroke: Rgba::premultiplied(0, 0, 0, 15),
                text_primary: Rgba::opaque(15, 23, 42),
                text_secondary: Rgba::opaque(71, 85, 105),
                accent_color: Rgba::opaque(79, 70, 229),
                accent_gradient_start: Rgba::opaque(79, 70, 229),
                accent_gradient_end: Rgba::opaque(147, 51, 234),
                input_bg: Rgba::premultiplied(240, 240, 245, 200),
                input_border: Rgba::premultiplied(0, 0, 0, 10),
                input_text: Rgba::opaque(15, 23, 42),
                input_hint: Rgba::opaque(148, 163, 184),
            },
        }
    }

    /// The colour in which a status of the given kind is written.
    pub fn status_colour(&self, status: StatusType) -> (colour: Rgba)
        ensures
            colour == self.status_colour_of(status),
    {
        match status {
            StatusType::Success => Rgba::opaque(52, 211, 153),
            StatusType::Error => Rgba::opaque(248, 113, 113),
            StatusType::Info => self.text_secondary,
        }
    }

    /// The fill of the save button, which changes while the pointer is on it.
    pub fn button_fill(&self, hovered: bool) -> (colour: Rgba)
        ensures
            colour == if hovered {
                self.accent_gradient_end
            } else {
                self.accent_gradient_start
            },
    {
        if hovered {
            self.accent_gradient_end
        } else {
            self.accent_gradient_start
        }
    }
}

impl Backdrop {
    /// The backdrop of a theme.
    pub open spec fn of_theme(theme: Theme) -> Backdrop {
        match theme {
            Theme::Dark => Backdrop {
                base: rgb(10, 10, 15),
                first_blob: rgba(67, 56, 202, 30),
                second_blob: rgba(126, 34, 206, 25),
                third_blob: rgba(29, 78, 216, 20),
            },
            Theme::Light => Backdrop {
                base: rgb(240, 242, 248),
                first_blob: rgba(199, 210, 254, 80),
                second_blob: rgba(233, 213, 255, 70),
                third_blob: rgba(191, 219, 254, 60),
            },
        }
    }

    pub fn from_theme(theme: Theme) -> (backdrop: Backdrop)
        ensures
            backdrop == Backdrop::of_theme(theme),
    {
        match theme {
            Theme::Dark => Backdrop {
                base: Rgba::opaque(10, 10, 15),
                first_blob: Rgba::premultiplied(67, 56, 202, 30),
                second_blob: Rgba::premultiplied(126, 34, 206, 25),
                third_blob: Rgba::premultiplied(29, 78, 216, 20),
            },
            Theme::Light => Backdrop {
                base: Rgba::opaque(240, 242, 248),
                first_blob: Rgba::premultiplied(199, 210, 254, 80),
                second_blob: Rgba::premultiplied(233, 213, 255, 70),
                third_blob: Rgba::premultiplied(191, 219, 254, 60),
            },
        }
    }
}

} // verus!
