use crate::color::{Color, SpecColor};
use vstd::prelude::*;

verus! {

/// The mathematical value of a style: an optional foreground and an optional
/// background color. An absent component means "inherit from an enclosing
/// default", never "render unstyled"; resolution happens by an explicit
/// overlay ([`spec_style_or`]), not at construction.
pub struct SpecStyle {
    pub foreground: Option<SpecColor>,
    pub background: Option<SpecColor>,
}

/// Foreground and background colors of a block, either possibly inherited.
#[derive(Clone, Debug)]
pub struct Style {
    pub foreground: Option<Color>,
    pub background: Option<Color>,
}

impl View for Style {
    type V = SpecStyle;

    open spec fn view(&self) -> SpecStyle {
        SpecStyle {
            foreground: match self.foreground {
                Some(c) => Some(c@),
                None => None,
            },
            background: match self.background {
                Some(c) => Some(c@),
                None => None,
            },
        }
    }
}

/// The style with both components inherited.
pub open spec fn spec_no_style() -> SpecStyle {
    SpecStyle { foreground: None, background: None }
}

/// Per-channel coalescing: a present component wins over the default.
pub open spec fn spec_color_or(a: Option<SpecColor>, b: Option<SpecColor>) -> Option<SpecColor> {
    if a is Some {
        a
    } else {
        b
    }
}

/// The overlay of a default style under a style: each of the style's own
/// components wins if present, else the default's component is used.
pub open spec fn spec_style_or(s: SpecStyle, d: SpecStyle) -> SpecStyle {
    SpecStyle {
        foreground: spec_color_or(s.foreground, d.foreground),
        background: spec_color_or(s.background, d.background),
    }
}

impl Style {
    pub fn new() -> (r: Style)
        ensures
            r@ == spec_no_style(),
    {
        Style { foreground: None, background: None }
    }

    pub fn fg(foreground: Color) -> (r: Style)
        ensures
            r@ == (SpecStyle { foreground: Some(foreground@), background: None }),
    {
        Style { foreground: Some(foreground), background: None }
    }

    pub fn bg(background: Color) -> (r: Style)
        ensures
            r@ == (SpecStyle { foreground: None, background: Some(background@) }),
    {
        Style { foreground: None, background: Some(background) }
    }

    pub fn with_fg(self, foreground: Color) -> (r: Style)
        ensures
            r@ == (SpecStyle { foreground: Some(foreground@), background: self@.background }),
    {
        Style { foreground: Some(foreground), ..self }
    }

    pub fn with_bg(self, background: Color) -> (r: Style)
        ensures
            r@ == (SpecStyle { foreground: self@.foreground, background: Some(background@) }),
    {
        Style { background: Some(background), ..self }
    }

    pub fn with_maybe_fg(self, foreground: Option<Color>) -> (r: Style)
        ensures
            r@ == (SpecStyle {
                foreground: match foreground {
                    Some(c) => Some(c@),
                    None => None,
                },
                background: self@.background,
            }),
    {
        Style { foreground, ..self }
    }

    pub fn with_maybe_bg(self, background: Option<Color>) -> (r: Style)
        ensures
            r@ == (SpecStyle {
                foreground: self@.foreground,
                background: match background {
                    Some(c) => Some(c@),
                    None => None,
                },
            }),
    {
        Style { background, ..self }
    }

    /// Overlays a default: own components win, absent ones are taken from it.
    pub fn or(&self, default: &Style) -> (r: Style)
        ensures
            r@ == spec_style_or(self@, default@),
    {
        Style {
            foreground: pick_color(&self.foreground, &default.foreground),
            background: pick_color(&self.background, &default.background),
        }
    }

    /// An owned copy with the same value.
    pub fn duplicate(&self) -> (r: Style)
        ensures
            r@ == self@,
    {
        Style {
            foreground: match &self.foreground {
                Some(c) => Some(c.duplicate()),
                None => None,
            },
            background: match &self.background {
                Some(c) => Some(c.duplicate()),
                None => None,
            },
        }
    }
}

impl Default for Style {
    fn default() -> (r: Style)
        ensures
            r@ == spec_no_style(),
    {
        Style::new()
    }
}

/// Overlaying a default on a fully set style changes nothing: a style that
/// already carries both colors is a fixed point of every overlay.
pub proof fn lemma_overlay_full_style(s: SpecStyle, d: SpecStyle)
    requires
        s.foreground is Some,
        s.background is Some,
    ensures
        spec_style_or(s, d) == s,
{
}

fn pick_color(own: &Option<Color>, default: &Option<Color>) -> (r: Option<Color>)
    ensures
        (match r {
            Some(c) => Some(c@),
            None => None,
        }) == spec_color_or(
            match own {
                Some(c) => Some(c@),
                None => None,
            },
            match default {
                Some(c) => Some(c@),
                None => None,
            },
        ),
{
    match own {
        Some(c) => Some(c.duplicate()),
        None => match default {
            Some(c) => Some(c.duplicate()),
            None => None,
        },
    }
}

} // verus!
