//! String-keyed attribute lists and the cascading resolution rule.
//!
//! [`Attributes`] keeps key/value pairs in insertion order. Lookup returns
//! the first pair with a matching key; absence is a distinct outcome, never
//! conflated with an empty string. [`resolve_attribute`] implements the
//! three-tier cascade: an explicit source attribute wins over a
//! document-level per-tag default, which wins over the component's own
//! hardcoded default.

use vstd::prelude::*;

verus! {

/// An ordered list of key/value attributes.
#[derive(Debug)]
pub struct Attributes {
    pub pairs: Vec<(String, String)>,
}

impl View for Attributes {
    type V = Seq<(Seq<char>, Seq<char>)>;

    open spec fn view(&self) -> Seq<(Seq<char>, Seq<char>)> {
        self.pairs@.map_values(|p: (String, String)| (p.0@, p.1@))
    }
}

/// First-match lookup in a key/value list.
pub open spec fn spec_lookup(s: Seq<(Seq<char>, Seq<char>)>, key: Seq<char>) -> Option<Seq<char>>
    decreases s.len(),
{
    if s.len() == 0 {
        None
    } else if s[0].0 == key {
        Some(s[0].1)
    } else {
        spec_lookup(s.drop_first(), key)
    }
}

/// Serialization for a tag: ` key="value"` for each pair, in order.
pub open spec fn spec_attrs_str(s: Seq<(Seq<char>, Seq<char>)>) -> Seq<char>
    decreases s.len(),
{
    if s.len() == 0 {
        Seq::empty()
    } else {
        " "@ + s[0].0 + "=\""@ + s[0].1 + "\""@ + spec_attrs_str(s.drop_first())
    }
}

impl Attributes {
    /// An empty attribute list.
    pub fn new() -> (r: Attributes)
        ensures
            r@ == Seq::<(Seq<char>, Seq<char>)>::empty(),
    {
        let r = Attributes { pairs: Vec::new() };
        proof {
            assert(r@ =~= Seq::<(Seq<char>, Seq<char>)>::empty());
        }
        r
    }

    /// Appends the pair `key="value"`.
    pub fn set(&mut self, key: &str, value: &str)
        ensures
            final(self)@ == old(self)@.push((key@, value@)),
    {
        self.pairs.push((key.to_owned(), value.to_owned()));
        proof {
            assert(self@ =~= old(self)@.push((key@, value@)));
        }
    }

    /// Appends the pair when a value is present.
    pub fn maybe_set(&mut self, key: &str, value: Option<String>)
        ensures
            final(self)@ == (match value {
                Some(v) => old(self)@.push((key@, v@)),
                None => old(self)@,
            }),
    {
        match value {
            Some(v) => self.set(key, v.as_str()),
            None => {}
        }
    }

    /// The value of the first pair whose key is `key`, or `None`.
    pub fn get(&self, key: &str) -> (r: Option<String>)
        ensures
            (match r {
                Some(v) => spec_lookup(self@, key@) == Some(v@),
                None => spec_lookup(self@, key@) is None,
            }),
    {
        let k = key.to_owned();
        proof {
            assert(self@.skip(0) =~= self@);
        }
        self.get_from(0, &k)
    }

    fn get_from(&self, i: usize, key: &String) -> (r: Option<String>)
        requires
            i <= self.pairs.len(),
        ensures
            (match r {
                Some(v) => spec_lookup(self@.skip(i as int), key@) == Some(v@),
                None => spec_lookup(self@.skip(i as int), key@) is None,
            }),
        decreases self.pairs.len() - i,
    {
        if i == self.pairs.len() {
            proof {
                assert(self@.skip(i as int) =~= Seq::<(Seq<char>, Seq<char>)>::empty());
            }
            None
        } else {
            proof {
                assert(self@.skip(i as int).drop_first() =~= self@.skip(i + 1));
                assert(self@.skip(i as int)[0] == self@[i as int]);
            }
            if self.pairs[i].0 == *key {
                Some(self.pairs[i].1.clone())
            } else {
                self.get_from(i + 1, key)
            }
        }
    }

    /// An attribute list with the same pairs in the same order.
    pub fn duplicate(&self) -> (r: Attributes)
        ensures
            r@ == self@,
    {
        let mut r = Attributes::new();
        let n = self.pairs.len();
        let mut i: usize = 0;
        proof {
            assert(self@.take(0) =~= Seq::<(Seq<char>, Seq<char>)>::empty());
        }
        while i < n
            invariant
                i <= n,
                n == self.pairs.len(),
                r@ == self@.take(i as int),
            decreases n - i,
        {
            let k = self.pairs[i].0.clone();
            let v = self.pairs[i].1.clone();
            r.set(k.as_str(), v.as_str());
            proof {
                assert(self@.take(i + 1) =~= self@.take(i as int).push(self@[i as int]));
            }
            i += 1;
        }
        proof {
            assert(self@.take(n as int) =~= self@);
        }
        r
    }

    /// Whether no attribute has been set.
    pub fn is_empty(&self) -> (r: bool)
        ensures
            r == (self@.len() == 0),
    {
        self.pairs.len() == 0
    }

    /// Serializes the pairs for inclusion in a tag, each as ` key="value"`.
    pub fn to_string(&self) -> (r: String)
        ensures
            r@ == spec_attrs_str(self@),
    {
        proof {
            assert(self@.skip(0) =~= self@);
        }
        self.render_from(0)
    }

    fn render_from(&self, i: usize) -> (r: String)
        requires
            i <= self.pairs.len(),
        ensures
            r@ == spec_attrs_str(self@.skip(i as int)),
        decreases self.pairs.len() - i,
    {
        if i == self.pairs.len() {
            proof {
                assert(self@.skip(i as int) =~= Seq::<(Seq<char>, Seq<char>)>::empty());
            }
            String::new()
        } else {
            let mut s = String::new();
            s.append(" ");
            s.append(self.pairs[i].0.as_str());
            s.append("=\"");
            s.append(self.pairs[i].1.as_str());
            s.append("\"");
            let rest = self.render_from(i + 1);
            s.append(rest.as_str());
            proof {
                assert(self@.skip(i as int).drop_first() =~= self@.skip(i + 1));
                assert(self@.skip(i as int)[0] == self@[i as int]);
            }
            s
        }
    }
}

/// What the three-tier cascade yields: the explicit source attribute when
/// present, else the document-level default for this tag name, else the
/// component's hardcoded default.
pub open spec fn spec_resolve(
    source: Seq<(Seq<char>, Seq<char>)>,
    doc_defaults: Seq<(Seq<char>, Seq<char>)>,
    hardcoded: Option<Seq<char>>,
    key: Seq<char>,
) -> Option<Seq<char>> {
    match spec_lookup(source, key) {
        Some(v) => Some(v),
        None => match spec_lookup(doc_defaults, key) {
            Some(v) => Some(v),
            None => hardcoded,
        },
    }
}

/// Resolves one attribute through the full cascade: the node's own source
/// attributes first, then the document-level per-tag defaults, then the
/// component's hardcoded default.
pub fn resolve_attribute(
    source: &Attributes,
    doc_defaults: &Attributes,
    hardcoded: Option<String>,
    key: &str,
) -> (r: Option<String>)
    ensures
        (match r {
            Some(v) => spec_resolve(source@, doc_defaults@, spec_opt_view(hardcoded), key@)
                == Some(v@),
            None => spec_resolve(source@, doc_defaults@, spec_opt_view(hardcoded), key@) is None,
        }),
{
    match source.get(key) {
        Some(v) => Some(v),
        None => match doc_defaults.get(key) {
            Some(v) => Some(v),
            None => hardcoded,
        },
    }
}

/// Compares two string slices by contents.
pub fn str_eq(a: &str, b: &str) -> (r: bool)
    ensures
        r == (a@ == b@),
{
    let x = a.to_owned();
    let y = b.to_owned();
    x == y
}

/// The view of an optional string.
pub open spec fn spec_opt_view(o: Option<String>) -> Option<Seq<char>> {
    match o {
        Some(s) => Some(s@),
        None => None,
    }
}

/// Document-wide attribute overrides, declared once near the root of the
/// source tree: for each tag name, the attribute values every node of that
/// tag inherits unless it sets its own.
#[derive(Debug)]
pub struct DocumentDefaults {
    pub entries: Vec<(String, Attributes)>,
}

/// First-match lookup of a tag's override list.
pub open spec fn spec_defaults_for_tag(
    entries: Seq<(String, Attributes)>,
    tag: Seq<char>,
) -> Option<Seq<(Seq<char>, Seq<char>)>>
    decreases entries.len(),
{
    if entries.len() == 0 {
        None
    } else if entries[0].0@ == tag {
        Some(entries[0].1@)
    } else {
        spec_defaults_for_tag(entries.drop_first(), tag)
    }
}

/// What the document-level lookup yields for one tag name and key.
pub open spec fn spec_default_for(
    entries: Seq<(String, Attributes)>,
    tag: Seq<char>,
    key: Seq<char>,
) -> Option<Seq<char>> {
    match spec_defaults_for_tag(entries, tag) {
        Some(attrs) => spec_lookup(attrs, key),
        None => None,
    }
}

impl DocumentDefaults {
    /// No document-level overrides.
    pub fn new() -> (r: DocumentDefaults)
        ensures
            r.entries@ == Seq::<(String, Attributes)>::empty(),
    {
        let r = DocumentDefaults { entries: Vec::new() };
        proof {
            assert(r.entries@ =~= Seq::<(String, Attributes)>::empty());
        }
        r
    }

    /// Declares the override list for one tag name.
    pub fn add_tag(&mut self, tag: &str, attributes: Attributes)
        ensures
            final(self).entries@.len() == old(self).entries@.len() + 1,
            final(self).entries@.last().0@ == tag@,
            final(self).entries@.last().1 == attributes,
            final(self).entries@.drop_last() == old(self).entries@,
    {
        self.entries.push((tag.to_owned(), attributes));
        proof {
            assert(self.entries@.drop_last() =~= old(self).entries@);
        }
    }

    /// The document-level override for one tag name and attribute key, or
    /// `None` when the document declares none.
    pub fn default_for(&self, tag_name: &str, key: &str) -> (r: Option<String>)
        ensures
            spec_opt_view(r) == spec_default_for(self.entries@, tag_name@, key@),
    {
        proof {
            assert(self.entries@.skip(0) =~= self.entries@);
        }
        let mut i: usize = 0;
        let n = self.entries.len();
        while i < n
            invariant
                i <= n,
                n == self.entries.len(),
                spec_defaults_for_tag(self.entries@.skip(i as int), tag_name@)
                    == spec_defaults_for_tag(self.entries@, tag_name@),
            decreases n - i,
        {
            proof {
                assert(self.entries@.skip(i as int)[0] == self.entries@[i as int]);
                assert(self.entries@.skip(i as int).drop_first() =~= self.entries@.skip(
                    i + 1,
                ));
            }
            let hit = str_eq(self.entries[i].0.as_str(), tag_name);
            proof {
                if hit {
                    assert(spec_defaults_for_tag(self.entries@.skip(i as int), tag_name@)
                        == Some(self.entries@[i as int].1@));
                }
            }
            if hit {
                return self.entries[i].1.get(key);
            }
            i += 1;
        }
        None
    }
}

/// An attribute explicitly set on the source node always wins: whenever the
/// source list has the key, the cascade returns the source value, whatever
/// the document-level or hardcoded defaults say.
pub proof fn lemma_explicit_attribute_wins(
    source: Seq<(Seq<char>, Seq<char>)>,
    doc_defaults: Seq<(Seq<char>, Seq<char>)>,
    hardcoded: Option<Seq<char>>,
    key: Seq<char>,
)
    requires
        spec_lookup(source, key) is Some,
    ensures
        spec_resolve(source, doc_defaults, hardcoded, key) == spec_lookup(source, key),
{
}

/// What the cascade yields for a node of a given tag name, with the
/// document-level overrides looked up by that name.
pub open spec fn spec_node_resolve(
    source: Seq<(Seq<char>, Seq<char>)>,
    entries: Seq<(String, Attributes)>,
    tag: Seq<char>,
    hardcoded: Option<Seq<char>>,
    key: Seq<char>,
) -> Option<Seq<char>> {
    match spec_lookup(source, key) {
        Some(v) => Some(v),
        None => match spec_default_for(entries, tag, key) {
            Some(v) => Some(v),
            None => hardcoded,
        },
    }
}

/// Resolves one attribute of a node: the node's explicit value, else the
/// document-level override for the node's tag name, else the component's
/// hardcoded default.
pub fn resolve_node_attribute(
    source: &Attributes,
    document: &DocumentDefaults,
    tag_name: &str,
    hardcoded: Option<String>,
    key: &str,
) -> (r: Option<String>)
    ensures
        (match r {
            Some(v) => spec_node_resolve(
                source@,
                document.entries@,
                tag_name@,
                spec_opt_view(hardcoded),
                key@,
            ) == Some(v@),
            None => spec_node_resolve(
                source@,
                document.entries@,
                tag_name@,
                spec_opt_view(hardcoded),
                key@,
            ) is None,
        }),
{
    match source.get(key) {
        Some(v) => Some(v),
        None => match document.default_for(tag_name, key) {
            Some(v) => Some(v),
            None => hardcoded,
        },
    }
}

/// The same precedence holds per tag name: an explicit source attribute
/// wins over the document-level override for the node's tag and over the
/// hardcoded default.
pub proof fn lemma_explicit_wins_with_document(
    source: Seq<(Seq<char>, Seq<char>)>,
    entries: Seq<(String, Attributes)>,
    tag: Seq<char>,
    hardcoded: Option<Seq<char>>,
    key: Seq<char>,
)
    requires
        spec_lookup(source, key) is Some,
    ensures
        spec_node_resolve(source, entries, tag, hardcoded, key) == spec_lookup(source, key),
{
}

} // verus!
