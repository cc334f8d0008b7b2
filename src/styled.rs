use vstd::prelude::*;

use crate::color::Color;
use crate::style::{
    spec_sgr, BLINK, BOLD, CONCEAL, DBL_UNDERLINE, FAINT, ITALIC, RESET, REVERSE, UNDERLINE,
};

verus! {

/// A named graphic rendition that is changed in place.
#[derive(Debug, Clone, Copy, PartialEq, Eq, Structural)]
pub struct Style {
    pub id: u8,
    pub effects: u8,
    pub text: Option<Color>,
    pub background: Option<Color>,
}

impl Style {
    /// The same rendition as an immutable style.
    pub open spec fn spec_rendition(&self) -> crate::style::Style {
        crate::style::Style { effects: self.effects, text: self.text, background: self.background }
    }

    /// A style with no effect and no color, with id 0; `name` only labels
    /// the call site and is not kept.
    pub fn new(name: &str) -> (r: Style)
        ensures
            r == (Style { id: 0, effects: RESET, text: None, background: None }),
    {
        Style { id: 0, effects: RESET, text: None, background: None }
    }

    /// Toggles the bold effect.
    pub fn bold(&mut self)
        ensures
            *final(self) == (Style { effects: old(self).effects ^ BOLD, ..*old(self) }),
    {
        self.effects = self.effects ^ BOLD;
    }

    /// Toggles the underline effect.
    pub fn underline(&mut self)
        ensures
            *final(self) == (Style { effects: old(self).effects ^ UNDERLINE, ..*old(self) }),
    {
        self.effects = self.effects ^ UNDERLINE;
    }

    /// Toggles the double underline effect.
    pub fn double_underline(&mut self)
        ensures
            *final(self) == (Style { effects: old(self).effects ^ DBL_UNDERLINE, ..*old(self) }),
    {
        self.effects = self.effects ^ DBL_UNDERLINE;
    }

    /// Toggles the italic effect.
    pub fn italic(&mut self)
        ensures
            *final(self) == (Style { effects: old(self).effects ^ ITALIC, ..*old(self) }),
    {
        self.effects = self.effects ^ ITALIC;
    }

    /// Toggles the blink effect.
    pub fn blink(&mut self)
        ensures
            *final(self) == (Style { effects: old(self).effects ^ BLINK, ..*old(self) }),
    {
        self.effects = self.effects ^ BLINK;
    }

    /// Toggles the faint effect.
    pub fn faint(&mut self)
        ensures
            *final(self) == (Style { effects: old(self).effects ^ FAINT, ..*old(self) }),
    {
        self.effects = self.effects ^ FAINT;
    }

    /// Toggles the conceal effect.
    pub fn conceal(&mut self)
        ensures
            *final(self) == (Style { effects: old(self).effects ^ CONCEAL, ..*old(self) }),
    {
        self.effects = self.effects ^ CONCEAL;
    }

    /// Toggles the reverse effect.
    pub fn reverse(&mut self)
        ensures
            *final(self) == (Style { effects: old(self).effects ^ REVERSE, ..*old(self) }),
    {
        self.effects = self.effects ^ REVERSE;
    }

    /// Removes every effect and both colors.
    pub fn reset(&mut self)
        ensures
            *final(self) == (Style {
                effects: RESET,
                text: None,
                background: None,
                ..*old(self)
            }),
    {
        self.effects = RESET;
        self.text = None;
        self.background = None;
    }

    /// The style's escape sequence, ready to be written to the terminal.
    pub fn style(&self) -> (r: String)
        ensures
            r@ == spec_sgr(self.spec_rendition()),
    {
        let s = crate::style::Style {
            effects: self.effects,
            text: self.text,
            background: self.background,
        };
        s.style()
    }

    /// Replaces the content of `s` by the style's escape sequence.
    pub fn calibrate(&self, s: &mut String)
        ensures
            final(s)@ == spec_sgr(self.spec_rendition()),
    {
        *s = self.style();
    }

    /// Sets the text color.
    pub fn txt(&mut self, color: &[u8; 3])
        ensures
            *final(self) == (Style {
                text: Some(Color { r: color[0], g: color[1], b: color[2] }),
                ..*old(self)
            }),
    {
        self.text = Some(Color::new(color[0], color[1], color[2]));
    }

    /// Sets the background color.
    pub fn bkg(&mut self, color: &[u8; 3])
        ensures
            *final(self) == (Style {
                background: Some(Color { r: color[0], g: color[1], b: color[2] }),
                ..*old(self)
            }),
    {
        self.background = Some(Color::new(color[0], color[1], color[2]));
    }
}

} // verus!
