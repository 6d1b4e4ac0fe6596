//! Tables keyed by name: a section's fields, and the templates by name.
use std::collections::HashMap;
use vstd::prelude::*;

verus! {

/// The map that a list of entries describes; a later entry for a key
/// replaces an earlier one.
pub open spec fn entries_map<V: View>(s: Seq<(String, V)>) -> Map<Seq<char>, V::V>
    decreases s.len(),
{
    if s.len() == 0 {
        Map::empty()
    } else {
        entries_map(s.drop_last()).insert(s.last().0@, s.last().1@)
    }
}

/// A table from names to values, in the order the names were given.
pub struct NamedMap<V> {
    entries: Vec<(String, V)>,
}

/// The fields of one section or template, by field name.
pub type FieldMap = NamedMap<String>;

/// The templates, by template name.
pub type Templates = NamedMap<FieldMap>;

impl<V: View> View for NamedMap<V> {
    type V = Map<Seq<char>, V::V>;

    closed spec fn view(&self) -> Map<Seq<char>, V::V> {
        entries_map(self.entries@)
    }
}

proof fn lemma_lookup_prefix<V: View>(s: Seq<(String, V)>, i: int, k: Seq<char>)
    requires
        0 <= i <= s.len(),
        forall|j: int| i <= j < s.len() ==> s[j].0@ != k,
    ensures
        entries_map(s).contains_key(k) == entries_map(s.subrange(0, i)).contains_key(k),
        entries_map(s).contains_key(k) ==> entries_map(s)[k] == entries_map(s.subrange(0, i))[k],
    decreases s.len(),
{
    if i == s.len() {
        assert(s.subrange(0, i) =~= s);
    } else {
        assert(s.drop_last().subrange(0, i) =~= s.subrange(0, i));
        lemma_lookup_prefix(s.drop_last(), i, k);
    }
}

impl<V: View> NamedMap<V> {
    /// An empty table.
    pub fn new() -> (r: Self)
        ensures
            r@ == Map::<Seq<char>, V::V>::empty(),
    {
        NamedMap { entries: Vec::new() }
    }

    /// Sets `key` to `value`, replacing what it held.
    pub fn insert(&mut self, key: String, value: V)
        ensures
            final(self)@ == old(self)@.insert(key@, value@),
    {
        self.entries.push((key, value));
        proof {
            assert(self.entries@.drop_last() =~= old(self).entries@);
        }
    }

    /// The value under `key`, if any.
    pub fn get(&self, key: &str) -> (r: Option<&V>)
        ensures
            r matches Some(v) ==> self@.contains_key(key@) && self@[key@] == v@,
            r is None ==> !self@.contains_key(key@),
    {
        let mut i: usize = self.entries.len();
        while i > 0
            invariant
                i <= self.entries@.len(),
                forall|j: int| i <= j < self.entries@.len() ==> self.entries@[j].0@ != key@,
            decreases i,
        {
            let k = &self.entries[i - 1].0;
            if crate::text::str_eq(k.as_str(), key) {
                proof {
                    let s = self.entries@;
                    lemma_lookup_prefix(s, i as int, key@);
                    assert(s.subrange(0, i as int).drop_last() =~= s.subrange(0, i - 1));
                }
                return Some(&self.entries[i - 1].1);
            }
            i = i - 1;
        }
        proof {
            lemma_lookup_prefix(self.entries@, 0, key@);
        }
        None
    }
}

/// What `strfmt::strfmt` makes of a template and a table of variables:
/// `None` where it reports an error.
pub uninterp spec fn fmt_of(template: Seq<char>, vars: Map<Seq<char>, Seq<char>>) -> Option<
    Seq<char>,
>;

/// Relies on `strfmt::strfmt`: replaces each `{name}` of `template` by the
/// value of `name` in `vars`, and fails on a malformed template or an unknown
/// name. Its result depends on its arguments alone.
#[verifier::external_body]
pub(crate) fn substitute(template: &str, vars: &FieldMap) -> (r: Option<String>)
    ensures
        r matches Some(s) ==> fmt_of(template@, vars@) == Some(s@),
        r is None ==> fmt_of(template@, vars@) is None,
{
    let table: HashMap<String, String> = vars.entries.iter().cloned().collect();
    strfmt::strfmt(template, &table).ok()
}

} // verus!
