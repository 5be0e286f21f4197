//! Inline CSS declarations, in insertion order.
//!
//! A [`Style`] is an ordered list of `property: value` declarations built
//! incrementally while a node computes its markup. Insertion order is kept
//! because the rendered output must be byte-stable. Callers set each
//! property at most once per style.

use vstd::prelude::*;

verus! {

/// An ordered list of CSS declarations.
#[derive(Debug)]
pub struct Style {
    pub pairs: Vec<(String, String)>,
}

impl View for Style {
    type V = Seq<(Seq<char>, Seq<char>)>;

    open spec fn view(&self) -> Seq<(Seq<char>, Seq<char>)> {
        self.pairs@.map_values(|p: (String, String)| (p.0@, p.1@))
    }
}

/// Serialization of a declaration list: `prop:value;` for each entry, in
/// order, with no separator after the last entry's `;`.
pub open spec fn spec_style_str(s: Seq<(Seq<char>, Seq<char>)>) -> Seq<char>
    decreases s.len(),
{
    if s.len() == 0 {
        Seq::empty()
    } else {
        s[0].0 + ":"@ + s[0].1 + ";"@ + spec_style_str(s.drop_first())
    }
}

impl Style {
    /// A style with no declarations.
    pub fn new() -> (r: Style)
        ensures
            r@ == Seq::<(Seq<char>, Seq<char>)>::empty(),
    {
        let r = Style { pairs: Vec::new() };
        proof {
            assert(r@ =~= Seq::<(Seq<char>, Seq<char>)>::empty());
        }
        r
    }

    /// Appends the declaration `key: value`.
    pub fn set(&mut self, key: &str, value: &str)
        ensures
            final(self)@ == old(self)@.push((key@, value@)),
    {
        self.pairs.push((key.to_owned(), value.to_owned()));
        proof {
            assert(self@ =~= old(self)@.push((key@, value@)));
        }
    }

    /// Appends `key: value` when a value is present; an absent value leaves
    /// the style unchanged, so no empty declaration is ever emitted.
    pub fn maybe_set(&mut self, key: &str, value: Option<String>)
        ensures
            final(self)@ == (match value {
                Some(v) => old(self)@.push((key@, v@)),
                None => old(self)@,
            }),
    {
        match value {
            Some(v) => self.set(key, v.as_str()),
            None => {}
        }
    }

    /// Whether no declaration has been set.
    pub fn is_empty(&self) -> (r: bool)
        ensures
            r == (self@.len() == 0),
    {
        self.pairs.len() == 0
    }

    /// Serializes the declarations for an inline `style` attribute.
    pub fn to_string(&self) -> (r: String)
        ensures
            r@ == spec_style_str(self@),
    {
        proof {
            assert(self@.skip(0) =~= self@);
        }
        self.render_from(0)
    }

    fn render_from(&self, i: usize) -> (r: String)
        requires
            i <= self.pairs.len(),
        ensures
            r@ == spec_style_str(self@.skip(i as int)),
        decreases self.pairs.len() - i,
    {
        if i == self.pairs.len() {
            proof {
                assert(self@.skip(i as int) =~= Seq::<(Seq<char>, Seq<char>)>::empty());
            }
            String::new()
        } else {
            let mut s = self.pairs[i].0.clone();
            s.append(":");
            s.append(self.pairs[i].1.as_str());
            s.append(";");
            let rest = self.render_from(i + 1);
            s.append(rest.as_str());
            proof {
                assert(self@.skip(i as int).drop_first() =~= self@.skip(i + 1));
                assert(self@.skip(i as int)[0] == self@[i as int]);
            }
            s
        }
    }
}

/// A style with no declarations serializes to the empty string.
pub proof fn lemma_empty_style_serializes_empty(s: Seq<(Seq<char>, Seq<char>)>)
    requires
        s.len() == 0,
    ensures
        spec_style_str(s) == Seq::<char>::empty(),
{
}

} // verus!
