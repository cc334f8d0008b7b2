use vstd::prelude::*;

use crate::color::{push_char, spec_background_params, spec_text_params, Color};

verus! {

/// The rendition parameter of one effect bit, followed by `;`; nothing for
/// a clear bit.
#[verifier::opaque]
pub open spec fn spec_effect(bit: u8) -> Seq<char> {
    if bit == 1 {
        seq!['1', ';']
    } else if bit == 2 {
        seq!['2', ';']
    } else if bit == 4 {
        seq!['3', ';']
    } else if bit == 8 {
        seq!['4', ';']
    } else if bit == 16 {
        seq!['5', ';']
    } else if bit == 32 {
        seq!['7', ';']
    } else if bit == 64 {
        seq!['8', ';']
    } else if bit == 128 {
        seq!['2', '1', ';']
    } else {
        Seq::<char>::empty()
    }
}

/// The rendition parameters of an effect set, most significant bit first.
pub open spec fn spec_effects(e: u8) -> Seq<char> {
    spec_effect(e & 128) + spec_effect(e & 64) + spec_effect(e & 32) + spec_effect(e & 16)
        + spec_effect(e & 8) + spec_effect(e & 4) + spec_effect(e & 2) + spec_effect(e & 1)
}

/// The parameters of a whole style, each followed by `;`: effects, then
/// text color, then background color.
pub open spec fn spec_params(s: Style) -> Seq<char> {
    spec_effects(s.effects) + (match s.text {
        Some(c) => spec_text_params(c),
        None => Seq::<char>::empty(),
    }) + (match s.background {
        Some(c) => spec_background_params(c),
        None => Seq::<char>::empty(),
    })
}

/// The escape sequence of a style: `ESC [ params m` with the parameters
/// separated by `;`, or the reset sequence `ESC [ 0 m` when there are none.
pub open spec fn spec_sgr(s: Style) -> Seq<char> {
    let p = spec_params(s);
    if p.len() == 0 {
        seq!['\x1b', '[', '0', 'm']
    } else {
        seq!['\x1b', '['] + p.drop_last() + seq!['m']
    }
}

/// A graphic rendition: a set of effects and optional text and background
/// colors. Each effect is one bit of `effects`.
#[derive(Debug, Clone, Copy, PartialEq, Eq, Structural)]
pub struct Style {
    pub effects: u8,
    pub text: Option<Color>,
    pub background: Option<Color>,
}

pub const RESET: u8 = 0;

pub const BOLD: u8 = 1;

pub const FAINT: u8 = 2;

pub const ITALIC: u8 = 4;

pub const UNDERLINE: u8 = 8;

pub const BLINK: u8 = 16;

pub const REVERSE: u8 = 32;

pub const CONCEAL: u8 = 64;

pub const DBL_UNDERLINE: u8 = 128;

/// Appends the parameters of one effect bit.
fn effect(bit: u8, s: &mut String)
    ensures
        final(s)@ == old(s)@ + spec_effect(bit),
{
    reveal(spec_effect);
    if bit == 1 {
        push_char(s, '1');
    } else if bit == 2 {
        push_char(s, '2');
    } else if bit == 4 {
        push_char(s, '3');
    } else if bit == 8 {
        push_char(s, '4');
    } else if bit == 16 {
        push_char(s, '5');
    } else if bit == 32 {
        push_char(s, '7');
    } else if bit == 64 {
        push_char(s, '8');
    } else if bit == 128 {
        push_char(s, '2');
        push_char(s, '1');
    } else {
        assert(final(s)@ =~= old(s)@ + spec_effect(bit));
        return ;
    }
    push_char(s, ';');
    assert(final(s)@ =~= old(s)@ + spec_effect(bit));
}

/// Copies the first `n` characters of `src` to the end of `dst`.
fn push_prefix(dst: &mut String, src: &String, n: usize)
    requires
        n <= src@.len(),
    ensures
        final(dst)@ == old(dst)@ + src@.take(n as int),
{
    let mut i: usize = 0;
    while i < n
        invariant
            0 <= i <= n <= src@.len(),
            dst@ == old(dst)@ + src@.take(i as int),
        decreases n - i,
    {
        let c = src.as_str().get_char(i);
        push_char(dst, c);
        i += 1;
        assert(dst@ =~= old(dst)@ + src@.take(i as int));
    }
}

impl Style {
    /// A style with no effect and no color.
    pub fn new() -> (r: Style)
        ensures
            r == (Style { effects: RESET, text: None, background: None }),
    {
        Style { effects: RESET, text: None, background: None }
    }

    /// Toggles the bold effect.
    pub fn bold(self) -> (r: Style)
        ensures
            r == (Style { effects: self.effects ^ BOLD, ..self }),
    {
        Style { effects: self.effects ^ BOLD, ..self }
    }

    /// Toggles the underline effect.
    pub fn underline(self) -> (r: Style)
        ensures
            r == (Style { effects: self.effects ^ UNDERLINE, ..self }),
    {
        Style { effects: self.effects ^ UNDERLINE, ..self }
    }

    /// Toggles the double underline effect.
    pub fn double_underline(self) -> (r: Style)
        ensures
            r == (Style { effects: self.effects ^ DBL_UNDERLINE, ..self }),
    {
        Style { effects: self.effects ^ DBL_UNDERLINE, ..self }
    }

    /// Toggles the italic effect.
    pub fn italic(self) -> (r: Style)
        ensures
            r == (Style { effects: self.effects ^ ITALIC, ..self }),
    {
        Style { effects: self.effects ^ ITALIC, ..self }
    }

    /// Toggles the blink effect.
    pub fn blink(self) -> (r: Style)
        ensures
            r == (Style { effects: self.effects ^ BLINK, ..self }),
    {
        Style { effects: self.effects ^ BLINK, ..self }
    }

    /// Toggles the faint effect.
    pub fn faint(self) -> (r: Style)
        ensures
            r == (Style { effects: self.effects ^ FAINT, ..self }),
    {
        Style { effects: self.effects ^ FAINT, ..self }
    }

    /// Toggles the conceal effect.
    pub fn conceal(self) -> (r: Style)
        ensures
            r == (Style { effects: self.effects ^ CONCEAL, ..self }),
    {
        Style { effects: self.effects ^ CONCEAL, ..self }
    }

    /// Toggles the reverse effect.
    pub fn reverse(self) -> (r: Style)
        ensures
            r == (Style { effects: self.effects ^ REVERSE, ..self }),
    {
        Style { effects: self.effects ^ REVERSE, ..self }
    }

    /// Removes every effect and both colors.
    pub fn reset(self) -> (r: Style)
        ensures
            r == (Style { effects: RESET, text: None, background: None }),
    {
        Style { effects: RESET, text: None, background: None }
    }

    /// Each effect bit of the style, most significant first.
    pub fn bits(&self) -> (r: [u8; 8])
        ensures
            r == [
                self.effects & DBL_UNDERLINE,
                self.effects & CONCEAL,
                self.effects & REVERSE,
                self.effects & BLINK,
                self.effects & UNDERLINE,
                self.effects & ITALIC,
                self.effects & FAINT,
                self.effects & BOLD,
            ],
    {
        [
            self.effects & DBL_UNDERLINE,
            self.effects & CONCEAL,
            self.effects & REVERSE,
            self.effects & BLINK,
            self.effects & UNDERLINE,
            self.effects & ITALIC,
            self.effects & FAINT,
            self.effects & BOLD,
        ]
    }

    /// Appends the style's parameters, each followed by `;`.
    fn params(&self, s: &mut String)
        ensures
            final(s)@ == old(s)@ + spec_params(*self),
    {
        let b = self.bits();
        let ghost s0 = s@;
        effect(b[0], s);
        effect(b[1], s);
        effect(b[2], s);
        effect(b[3], s);
        effect(b[4], s);
        effect(b[5], s);
        effect(b[6], s);
        effect(b[7], s);
        proof {
            assert(b[0] == self.effects & 128 && b[1] == self.effects & 64 && b[2] == self.effects
                & 32 && b[3] == self.effects & 16 && b[4] == self.effects & 8 && b[5]
                == self.effects & 4 && b[6] == self.effects & 2 && b[7] == self.effects & 1);
            assert(s@ =~= s0 + spec_effects(self.effects));
        }
        self.text(s);
        self.background(s);
        assert(s@ =~= old(s)@ + spec_params(*self));
    }

    /// Appends the text color's parameters, if any.
    fn text(&self, style: &mut String)
        ensures
            final(style)@ == old(style)@ + (match self.text {
                Some(c) => spec_text_params(c),
                None => Seq::<char>::empty(),
            }),
    {
        match self.text {
            Some(c) => c.text(style),
            None => {
                assert(final(style)@ =~= old(style)@ + Seq::<char>::empty());
            },
        }
    }

    /// Appends the background color's parameters, if any.
    fn background(&self, style: &mut String)
        ensures
            final(style)@ == old(style)@ + (match self.background {
                Some(c) => spec_background_params(c),
                None => Seq::<char>::empty(),
            }),
    {
        match self.background {
            Some(c) => c.background(style),
            None => {
                assert(final(style)@ =~= old(style)@ + Seq::<char>::empty());
            },
        }
    }

    /// The style's escape sequence, ready to be written to the terminal.
    pub fn style(&self) -> (r: String)
        ensures
            r@ == spec_sgr(*self),
    {
        let mut p = String::new();
        self.params(&mut p);
        let mut out = String::new();
        push_char(&mut out, '\x1b');
        push_char(&mut out, '[');
        let n = p.as_str().unicode_len();
        if n == 0 {
            push_char(&mut out, '0');
        } else {
            push_prefix(&mut out, &p, n - 1);
            assert(p@.take(n - 1) =~= p@.drop_last());
        }
        push_char(&mut out, 'm');
        assert(out@ =~= spec_sgr(*self));
        out
    }

    /// Replaces the content of `s` by the style's escape sequence.
    pub fn dump_style(&self, s: &mut String)
        ensures
            final(s)@ == spec_sgr(*self),
    {
        *s = self.style();
    }

    /// Sets the text color.
    pub fn text_color(self, color: &[u8; 3]) -> (r: Style)
        ensures
            r == (Style { text: Some(Color { r: color[0], g: color[1], b: color[2] }), ..self }),
    {
        Style { text: Some(Color::new(color[0], color[1], color[2])), ..self }
    }

    /// Replaces the red channel of the text color.
    pub fn text_red(self, r: u8) -> (s: Style)
        requires
            self.text is Some,
        ensures
            s == (Style { text: Some(Color { r, ..self.text->0 }), ..self }),
    {
        let mut s = self;
        match s.text {
            Some(mut c) => {
                c.red(r);
                s.text = Some(c);
            },
            None => {},
        }
        s
    }

    /// Replaces the green channel of the text color.
    pub fn text_green(self, g: u8) -> (s: Style)
        requires
            self.text is Some,
        ensures
            s == (Style { text: Some(Color { g, ..self.text->0 }), ..self }),
    {
        let mut s = self;
        match s.text {
            Some(mut c) => {
                c.green(g);
                s.text = Some(c);
            },
            None => {},
        }
        s
    }

    /// Replaces the blue channel of the text color.
    pub fn text_blue(self, b: u8) -> (s: Style)
        requires
            self.text is Some,
        ensures
            s == (Style { text: Some(Color { b, ..self.text->0 }), ..self }),
    {
        let mut s = self;
        match s.text {
            Some(mut c) => {
                c.blue(b);
                s.text = Some(c);
            },
            None => {},
        }
        s
    }

    /// Sets the background color.
    pub fn background_color(self, color: &[u8; 3]) -> (r: Style)
        ensures
            r == (Style {
                background: Some(Color { r: color[0], g: color[1], b: color[2] }),
                ..self
            }),
    {
        Style { background: Some(Color::new(color[0], color[1], color[2])), ..self }
    }

    /// Replaces the red channel of the background color.
    pub fn background_red(self, r: u8) -> (s: Style)
        requires
            self.background is Some,
        ensures
            s == (Style { background: Some(Color { r, ..self.background->0 }), ..self }),
    {
        let mut s = self;
        match s.background {
            Some(mut c) => {
                c.red(r);
                s.background = Some(c);
            },
            None => {},
        }
        s
    }

    /// Replaces the green channel of the background color.
    pub fn background_green(self, g: u8) -> (s: Style)
        requires
            self.background is Some,
        ensures
            s == (Style { background: Some(Color { g, ..self.background->0 }), ..self }),
    {
        let mut s = self;
        match s.background {
            Some(mut c) => {
                c.green(g);
                s.background = Some(c);
            },
            None => {},
        }
        s
    }

    /// Replaces the blue channel of the background color.
    pub fn background_blue(self, b: u8) -> (s: Style)
        requires
            self.background is Some,
        ensures
            s == (Style { background: Some(Color { b, ..self.background->0 }), ..self }),
    {
        let mut s = self;
        match s.background {
            Some(mut c) => {
                c.blue(b);
                s.background = Some(c);
            },
            None => {},
        }
        s
    }
}

impl Default for Style {
    fn default() -> (r: Style)
        ensures
            r == (Style { effects: RESET, text: None, background: None }),
    {
        Style::new()
    }
}

} // verus!
