use vstd::prelude::*;

verus! {

/// Relies on `String::push`: the character is appended at the end.
#[verifier::external_body]
pub(crate) fn push_char(s: &mut String, c: char)
    ensures
        final(s)@ == old(s)@.push(c),
{
    s.push(c)
}

/// The character of a decimal digit.
pub open spec fn spec_digit(d: int) -> char {
    if d == 0 {
        '0'
    } else if d == 1 {
        '1'
    } else if d == 2 {
        '2'
    } else if d == 3 {
        '3'
    } else if d == 4 {
        '4'
    } else if d == 5 {
        '5'
    } else if d == 6 {
        '6'
    } else if d == 7 {
        '7'
    } else if d == 8 {
        '8'
    } else {
        '9'
    }
}

/// The decimal notation of `n`, without leading zeros.
pub open spec fn spec_decimal(n: nat) -> Seq<char>
    decreases n,
{
    if n < 10 {
        seq![spec_digit(n as int)]
    } else {
        spec_decimal(n / 10).push(spec_digit((n % 10) as int))
    }
}

fn digit_char(d: u8) -> (r: char)
    requires
        d < 10,
    ensures
        r == spec_digit(d as int),
{
    match d {
        0 => '0',
        1 => '1',
        2 => '2',
        3 => '3',
        4 => '4',
        5 => '5',
        6 => '6',
        7 => '7',
        8 => '8',
        _ => '9',
    }
}

/// Appends the decimal notation of `n` to `s`.
pub fn push_decimal(s: &mut String, n: u8)
    ensures
        final(s)@ == old(s)@ + spec_decimal(n as nat),
{
    if n >= 100 {
        push_char(s, digit_char(n / 100));
        push_char(s, digit_char((n / 10) % 10));
        push_char(s, digit_char(n % 10));
        assert(spec_decimal((n / 100) as nat) == seq![spec_digit((n / 100) as int)]);
        assert(spec_decimal((n / 10) as nat) == spec_decimal((n / 100) as nat).push(
            spec_digit(((n / 10) % 10) as int),
        ));
        assert(final(s)@ =~= old(s)@ + spec_decimal(n as nat));
    } else if n >= 10 {
        push_char(s, digit_char(n / 10));
        push_char(s, digit_char(n % 10));
        assert(spec_decimal((n / 10) as nat) == seq![spec_digit((n / 10) as int)]);
        assert(final(s)@ =~= old(s)@ + spec_decimal(n as nat));
    } else {
        push_char(s, digit_char(n));
        assert(final(s)@ =~= old(s)@ + spec_decimal(n as nat));
    }
}

/// A 24-bit color.
#[derive(Debug, Clone, Copy, PartialEq, Eq, Structural)]
pub struct Color {
    pub r: u8,
    pub g: u8,
    pub b: u8,
}

/// The rendition parameters of a color, each followed by `;`: `code;2;r;g;b;`.
pub open spec fn spec_rgb_params(code: Seq<char>, c: Color) -> Seq<char> {
    code + seq![';', '2', ';'] + spec_decimal(c.r as nat) + seq![';'] + spec_decimal(c.g as nat)
        + seq![';'] + spec_decimal(c.b as nat) + seq![';']
}

/// The rendition parameters that set the text color to `c`.
pub open spec fn spec_text_params(c: Color) -> Seq<char> {
    spec_rgb_params(seq!['3', '8'], c)
}

/// The rendition parameters that set the background color to `c`.
pub open spec fn spec_background_params(c: Color) -> Seq<char> {
    spec_rgb_params(seq!['4', '8'], c)
}

impl Color {
    pub fn new(r: u8, g: u8, b: u8) -> (c: Color)
        ensures
            c == (Color { r, g, b }),
    {
        Color { r, g, b }
    }

    fn push_rgb(&self, style: &mut String, first: char)
        ensures
            final(style)@ == old(style)@ + spec_rgb_params(seq![first, '8'], *self),
    {
        push_char(style, first);
        push_char(style, '8');
        push_char(style, ';');
        push_char(style, '2');
        push_char(style, ';');
        push_decimal(style, self.r);
        push_char(style, ';');
        push_decimal(style, self.g);
        push_char(style, ';');
        push_decimal(style, self.b);
        push_char(style, ';');
        assert(final(style)@ =~= old(style)@ + spec_rgb_params(seq![first, '8'], *self));
    }

    /// Appends the parameters that set the text color: `38;2;r;g;b;`.
    pub fn text(&self, style: &mut String)
        ensures
            final(style)@ == old(style)@ + spec_text_params(*self),
    {
        self.push_rgb(style, '3')
    }

    /// Appends the parameters that set the background color: `48;2;r;g;b;`.
    pub fn background(&self, style: &mut String)
        ensures
            final(style)@ == old(style)@ + spec_background_params(*self),
    {
        self.push_rgb(style, '4')
    }

    pub fn red(&mut self, r: u8)
        ensures
            *final(self) == (Color { r, ..*old(self) }),
    {
        self.r = r;
    }

    pub fn green(&mut self, g: u8)
        ensures
            *final(self) == (Color { g, ..*old(self) }),
    {
        self.g = g;
    }

    pub fn blue(&mut self, b: u8)
        ensures
            *final(self) == (Color { b, ..*old(self) }),
    {
        self.b = b;
    }

    /// The three channels, red first.
    pub fn array(&self) -> (r: [u8; 3])
        ensures
            r == [self.r, self.g, self.b],
    {
        [self.r, self.g, self.b]
    }
}

} // verus!
