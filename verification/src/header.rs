//! The per-compilation header accumulator.
//!
//! While a tree is prepared for rendering, every node may contribute the
//! fonts it references, a document breakpoint, or a title. Contributions
//! are folded into one [`Header`] in a single bottom-up pass; rendering
//! then only reads it. Font names are kept distinct, in first-seen order.

use vstd::prelude::*;

use crate::attributes::spec_opt_view;
use crate::size::Size;

verus! {

/// Document-level facts collected from the whole tree before rendering.
#[derive(Debug)]
pub struct Header {
    pub fonts: Vec<String>,
    pub breakpoint: Option<Size>,
    pub title: Option<String>,
}

/// The views of the collected font names, in order.
pub open spec fn spec_fonts(h: Header) -> Seq<Seq<char>> {
    h.fonts@.map_values(|f: String| f@)
}

/// Folding a list of font names into an accumulator, keeping first-seen
/// order and dropping names already present.
pub open spec fn spec_merge_fonts(a: Seq<Seq<char>>, b: Seq<Seq<char>>) -> Seq<Seq<char>>
    decreases b.len(),
{
    if b.len() == 0 {
        a
    } else {
        spec_merge_fonts(
            if a.contains(b[0]) {
                a
            } else {
                a.push(b[0])
            },
            b.drop_first(),
        )
    }
}

/// The first of two optional values, preferring the one already held.
pub open spec fn spec_keep_first<T>(a: Option<T>, b: Option<T>) -> Option<T> {
    match a {
        Some(v) => Some(v),
        None => b,
    }
}

impl Header {
    /// An accumulator with nothing collected yet.
    pub fn new() -> (r: Header)
        ensures
            spec_fonts(r) == Seq::<Seq<char>>::empty(),
            r.breakpoint is None,
            r.title is None,
    {
        let r = Header { fonts: Vec::new(), breakpoint: None, title: None };
        proof {
            assert(spec_fonts(r) =~= Seq::<Seq<char>>::empty());
        }
        r
    }

    /// Whether a font of this name was already collected.
    pub fn has_font(&self, name: &String) -> (r: bool)
        ensures
            r == spec_fonts(*self).contains(name@),
    {
        let mut i: usize = 0;
        let n = self.fonts.len();
        while i < n
            invariant
                i <= n,
                n == self.fonts.len(),
                forall|j: int| 0 <= j < i ==> spec_fonts(*self)[j] != name@,
            decreases n - i,
        {
            if self.fonts[i] == *name {
                proof {
                    assert(spec_fonts(*self)[i as int] == name@);
                }
                return true;
            }
            i += 1;
        }
        proof {
            if spec_fonts(*self).contains(name@) {
                let j = choose|j: int|
                    0 <= j < spec_fonts(*self).len() && spec_fonts(*self)[j] == name@;
                assert(spec_fonts(*self)[j] == name@);
            }
        }
        false
    }

    /// Records a font name once: a name already present is not repeated.
    pub fn add_font(&mut self, name: &String)
        ensures
            spec_fonts(*final(self)) == (if spec_fonts(*old(self)).contains(name@) {
                spec_fonts(*old(self))
            } else {
                spec_fonts(*old(self)).push(name@)
            }),
            final(self).breakpoint == old(self).breakpoint,
            final(self).title == old(self).title,
    {
        if !self.has_font(name) {
            self.fonts.push(name.clone());
            proof {
                assert(spec_fonts(*self) =~= spec_fonts(*old(self)).push(name@));
            }
        }
    }

    /// Sets the document breakpoint when none was collected yet.
    pub fn maybe_set_breakpoint(&mut self, b: Option<Size>)
        ensures
            final(self).breakpoint == spec_keep_first(old(self).breakpoint, b),
            spec_fonts(*final(self)) == spec_fonts(*old(self)),
            final(self).title == old(self).title,
    {
        if self.breakpoint.is_none() {
            self.breakpoint = b;
        }
    }

    /// Sets the document title when none was collected yet.
    pub fn maybe_set_title(&mut self, t: Option<String>)
        ensures
            final(self).title == spec_keep_first(old(self).title, t),
            spec_fonts(*final(self)) == spec_fonts(*old(self)),
            final(self).breakpoint == old(self).breakpoint,
    {
        if self.title.is_none() {
            self.title = t;
        }
    }

    /// Folds another accumulator into this one: fonts are appended in
    /// first-seen order without repeats, and a breakpoint or title already
    /// held wins over the other's.
    pub fn merge(&mut self, other: &Header)
        ensures
            spec_fonts(*final(self)) == spec_merge_fonts(
                spec_fonts(*old(self)),
                spec_fonts(*other),
            ),
            final(self).breakpoint == spec_keep_first(old(self).breakpoint, other.breakpoint),
            spec_opt_view(final(self).title) == spec_keep_first(
                spec_opt_view(old(self).title),
                spec_opt_view(other.title),
            ),
    {
        let ghost target = spec_merge_fonts(spec_fonts(*old(self)), spec_fonts(*other));
        proof {
            assert(spec_fonts(*other).skip(0) =~= spec_fonts(*other));
        }
        let n = other.fonts.len();
        let mut i: usize = 0;
        while i < n
            invariant
                i <= n,
                n == other.fonts.len(),
                spec_merge_fonts(spec_fonts(*self), spec_fonts(*other).skip(i as int))
                    == target,
                self.breakpoint == old(self).breakpoint,
                self.title == old(self).title,
            decreases n - i,
        {
            proof {
                let rest = spec_fonts(*other).skip(i as int);
                assert(rest[0] == spec_fonts(*other)[i as int]);
                assert(rest.drop_first() =~= spec_fonts(*other).skip(i + 1));
            }
            self.add_font(&other.fonts[i]);
            i += 1;
        }
        proof {
            assert(spec_fonts(*other).skip(n as int) =~= Seq::<Seq<char>>::empty());
        }
        let bp = match &other.breakpoint {
            Some(b) => Some(*b),
            None => None,
        };
        self.maybe_set_breakpoint(bp);
        let t = match &other.title {
            Some(s) => Some(s.clone()),
            None => None,
        };
        self.maybe_set_title(t);
    }
}

} // verus!
