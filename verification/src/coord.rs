//! Spatial coordinates: absolute, execution-relative and facing-relative
//! (local) triples, with the zero-elision text rendering.

use vstd::prelude::*;

use crate::decimal::Decimal;

verus! {

/// A single coordinate, either absolute or relative.
/// Local coordinates never mix with these; see [`Coordinates`].
#[derive(PartialEq, Eq, Structural, Clone, Copy, Debug)]
pub enum Coordinate {
    /// An absolute coordinate, e.g. `3`.
    Absolute(Decimal),
    /// A relative coordinate, e.g. `~5`; an offset of exactly zero renders
    /// as a bare `~`.
    Relative(Decimal),
}

/// A zero-elided axis value: nothing when the value is exactly zero, its
/// display text otherwise.
pub open spec fn axis_chars(v: Decimal) -> Seq<char> {
    if v.is_zero() {
        Seq::empty()
    } else {
        v.display_chars()
    }
}

impl Coordinate {
    /// The rendering of the coordinate: an absolute value renders its
    /// literal; a relative value renders `~` and elides an offset of zero.
    pub open spec fn text(self) -> Seq<char> {
        match self {
            Coordinate::Absolute(v) => v.display_chars(),
            Coordinate::Relative(v) => seq!['~'] + axis_chars(v),
        }
    }

    /// Appends the rendering of the coordinate to `out`.
    pub fn push_text(&self, out: &mut String)
        ensures
            final(out)@ == old(out)@ + self.text(),
    {
        match self {
            Coordinate::Absolute(v) => {
                v.push_number(out, false);
            },
            Coordinate::Relative(v) => {
                out.append("~");
                if !v.eq_zero() {
                    v.push_number(out, false);
                }
                proof {
                    reveal_strlit("~");
                    assert(final(out)@ =~= old(out)@ + self.text());
                }
            },
        }
    }
}

/// A coordinate triple: either mixed absolute/relative axes, or a fully
/// local (caret) triple.  Local and mixed axes never combine in one value.
#[derive(PartialEq, Eq, Structural, Clone, Copy, Debug)]
pub enum Coordinates {
    /// Mixed coordinates, one [`Coordinate`] per axis.
    Mixed(Coordinate, Coordinate, Coordinate),
    /// Local coordinates, `^ ^ ^` with per-axis zero elision.
    Local(Decimal, Decimal, Decimal),
}

impl Coordinates {
    /// The rendering of the triple: three axes separated by single spaces;
    /// each local axis is prefixed `^` and elides an exact zero.
    pub open spec fn text(self) -> Seq<char> {
        match self {
            Coordinates::Mixed(x, y, z) => x.text() + seq![' '] + y.text() + seq![' '] + z.text(),
            Coordinates::Local(x, y, z) => seq!['^'] + axis_chars(x) + seq![' ', '^']
                + axis_chars(y) + seq![' ', '^'] + axis_chars(z),
        }
    }

    /// Appends the rendering of the triple to `out`.
    pub fn push_text(&self, out: &mut String)
        ensures
            final(out)@ == old(out)@ + self.text(),
    {
        match self {
            Coordinates::Mixed(x, y, z) => {
                x.push_text(out);
                out.append(" ");
                y.push_text(out);
                out.append(" ");
                z.push_text(out);
                proof {
                    reveal_strlit(" ");
                    assert(final(out)@ =~= old(out)@ + self.text());
                }
            },
            Coordinates::Local(x, y, z) => {
                out.append("^");
                if !x.eq_zero() {
                    x.push_number(out, false);
                }
                out.append(" ^");
                if !y.eq_zero() {
                    y.push_number(out, false);
                }
                out.append(" ^");
                if !z.eq_zero() {
                    z.push_number(out, false);
                }
                proof {
                    reveal_strlit("^");
                    reveal_strlit(" ^");
                    assert(final(out)@ =~= old(out)@ + self.text());
                }
            },
        }
    }

    /// The rendering of the triple as a fresh string.
    pub fn render(&self) -> (r: String)
        ensures
            r@ == self.text(),
    {
        let mut out = String::new();
        self.push_text(&mut out);
        proof {
            assert(out@ =~= self.text());
        }
        out
    }
}

} // verus!
