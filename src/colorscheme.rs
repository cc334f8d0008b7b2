use vstd::prelude::*;

use crate::color::push_char;
use crate::style::{spec_sgr, Style};

verus! {

/// A component's color scheme operations.
pub trait ComponentColors {

}

/// A rule that picks parts of a text value by their content.
#[derive(Debug, Default)]
pub struct Pattern<'p> {
    pub starts_with: &'p str,
    pub ends_with: &'p str,
    pub starts_ends_with: &'p str,
    pub contains: &'p str,
    pub excludes: &'p str,
    pub equals: &'p str,
}

/// One way of picking parts of a text value by their content.
#[derive(Debug)]
pub enum Patterns {
    StartsWith(&'static str),
    EndsWith(&'static str),
    StartsEndWith(&'static str),
    Contains(&'static str),
    Excludes(&'static str),
    Equals(&'static str),
}

/// `value` with each character preceded by the escape sequence of a style,
/// the styles taken in turn and started over when they run out.
pub open spec fn spec_color_scheme(value: Seq<char>, styles: Seq<Style>) -> Seq<char>
    decreases value.len(),
{
    if value.len() == 0 {
        Seq::<char>::empty()
    } else {
        let i = value.len() - 1;
        spec_color_scheme(value.drop_last(), styles) + spec_sgr(styles[i % styles.len() as int])
            .push(value[i])
    }
}

/// Styles each character of `value` with the styles in turn, starting over
/// when they run out.
pub fn color_scheme(value: &[char], styles: &[Style]) -> (r: String)
    requires
        value@.len() == 0 || styles@.len() > 0,
    ensures
        r@ == spec_color_scheme(value@, styles@),
{
    let mut out = String::new();
    let mut idx: usize = 0;
    let mut i: usize = 0;
    while i < value.len()
        invariant
            0 <= i <= value@.len(),
            value@.len() == 0 || styles@.len() > 0,
            i < value@.len() ==> idx as int == (i as int) % (styles@.len() as int),
            out@ == spec_color_scheme(value@.take(i as int), styles@),
        decreases value@.len() - i,
    {
        let sc = styles[idx].style();
        out.append(sc.as_str());
        push_char(&mut out, value[i]);
        proof {
            assert(value@.take(i + 1).drop_last() =~= value@.take(i as int));
            assert(value@.take(i + 1)[i as int] == value@[i as int]);
        }
        if idx == styles.len() - 1 {
            idx = 0;
        } else {
            idx += 1;
        }
        proof {
            if i + 1 < value@.len() {
                let n = styles@.len() as int;
                let k = i as int;
                assert((k + 1) % n == if k % n == n - 1 {
                    0
                } else {
                    k % n + 1
                }) by (nonlinear_arith)
                    requires
                        n > 0,
                        k >= 0,
                ;
            }
        }
        i += 1;
    }
    assert(value@.take(i as int) =~= value@);
    out
}

} // verus!
