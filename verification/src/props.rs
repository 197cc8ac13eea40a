//! Block property mappings and their canonical encoding.
//!
//! A [`PropertyMap`] maps string keys to string values; keys are unique and
//! their order is irrelevant. Entries are held sorted by key, so that equal
//! mappings have byte-identical canonical encodings regardless of the order
//! properties were inserted in.

use vstd::prelude::*;

use crate::strings::{
    lemma_lex_lt_asymmetric, lemma_lex_lt_transitive, lemma_lex_lt_trichotomy, lex_lt, str_eq,
    str_lt,
};
use vstd::string::StringExecFns;

verus! {

/// A block's property mapping: string keys to string values, keys unique,
/// order irrelevant. Entries are kept sorted by key.
#[derive(Clone, Debug, PartialEq, Eq)]
pub struct PropertyMap {
    pub(crate) items: Vec<(String, String)>,
}

/// The entries of a property vector, keys and values as character sequences.
pub open spec fn entries_of(items: Seq<(String, String)>) -> Seq<(Seq<char>, Seq<char>)> {
    items.map_values(|p: (String, String)| (p.0@, p.1@))
}

/// The mapping an entry sequence stands for; on duplicate keys the earliest
/// entry wins.
pub open spec fn as_map(es: Seq<(Seq<char>, Seq<char>)>) -> Map<Seq<char>, Seq<char>>
    decreases es.len(),
{
    if es.len() == 0 {
        Map::empty()
    } else {
        as_map(es.drop_first()).insert(es[0].0, es[0].1)
    }
}

/// Entry keys strictly increase, which makes keys unique and the entry
/// order canonical for the mapping it stands for.
pub open spec fn sorted_by_key(es: Seq<(Seq<char>, Seq<char>)>) -> bool {
    forall|i: int, j: int| 0 <= i < j < es.len() ==> lex_lt(es[i].0, es[j].0)
}

impl PropertyMap {
    /// The entry sequence, keys and values as character sequences.
    pub closed spec fn entries(&self) -> Seq<(Seq<char>, Seq<char>)> {
        entries_of(self.items@)
    }

    /// Well-formed: entries sorted strictly by key.
    pub open spec fn wf(&self) -> bool {
        sorted_by_key(self.entries())
    }
}

impl View for PropertyMap {
    type V = Map<Seq<char>, Seq<char>>;

    open spec fn view(&self) -> Map<Seq<char>, Seq<char>> {
        as_map(self.entries())
    }
}

/// In a strictly key-sorted entry sequence all keys are distinct.
proof fn lemma_sorted_unique(es: Seq<(Seq<char>, Seq<char>)>)
    requires
        sorted_by_key(es),
    ensures
        forall|i: int, j: int|
            0 <= i < es.len() && 0 <= j < es.len() && i != j ==> es[i].0 != es[j].0,
{
    assert forall|i: int, j: int|
        0 <= i < es.len() && 0 <= j < es.len() && i != j implies es[i].0 != es[j].0 by {
        if i < j {
            lemma_lex_lt_asymmetric(es[i].0, es[j].0);
        } else {
            lemma_lex_lt_asymmetric(es[j].0, es[i].0);
        }
    }
}

/// An entry whose key matches no earlier entry gives that key's value.
proof fn lemma_as_map_first_match(es: Seq<(Seq<char>, Seq<char>)>, i: int)
    requires
        0 <= i < es.len(),
        forall|j: int| 0 <= j < i ==> es[j].0 != es[i].0,
    ensures
        as_map(es).contains_key(es[i].0),
        as_map(es)[es[i].0] == es[i].1,
    decreases es.len(),
{
    if i > 0 {
        assert forall|j: int| 0 <= j < i - 1 implies (#[trigger] es.drop_first()[j]).0
            != es.drop_first()[i - 1].0 by {
            assert(es[j + 1].0 != es[i].0);
        }
        lemma_as_map_first_match(es.drop_first(), i - 1);
        assert(es[0].0 != es[i].0);
    }
}

/// A key matching no entry is not a key of the mapping.
proof fn lemma_as_map_no_match(es: Seq<(Seq<char>, Seq<char>)>, k: Seq<char>)
    requires
        forall|j: int| 0 <= j < es.len() ==> es[j].0 != k,
    ensures
        !as_map(es).contains_key(k),
    decreases es.len(),
{
    if es.len() > 0 {
        lemma_as_map_no_match(es.drop_first(), k);
    }
}

/// Every key of the mapping matches some entry.
proof fn lemma_as_map_key_has_entry(es: Seq<(Seq<char>, Seq<char>)>, k: Seq<char>)
    requires
        as_map(es).contains_key(k),
    ensures
        exists|i: int| 0 <= i < es.len() && es[i].0 == k,
    decreases es.len(),
{
    if es.len() > 0 {
        if es[0].0 == k {
            assert(0 <= 0 < es.len() && es[0].0 == k);
        } else {
            lemma_as_map_key_has_entry(es.drop_first(), k);
            let i0 = choose|i0: int| 0 <= i0 < es.drop_first().len() && es.drop_first()[i0].0 == k;
            assert(es[i0 + 1].0 == k);
        }
    }
}

/// Inserting an entry with a fresh key, at any position, inserts that key
/// into the mapping.
proof fn lemma_as_map_insert_at(es: Seq<(Seq<char>, Seq<char>)>, p: int, k: Seq<char>, v: Seq<char>)
    requires
        0 <= p <= es.len(),
        forall|j: int| 0 <= j < es.len() ==> es[j].0 != k,
    ensures
        as_map(es.insert(p, (k, v))) == as_map(es).insert(k, v),
    decreases p,
{
    let es2 = es.insert(p, (k, v));
    if p == 0 {
        assert(es2.drop_first() =~= es);
        assert(es2[0] == (k, v));
        assert(as_map(es2) =~= as_map(es).insert(k, v));
    } else {
        assert(es2[0] == es[0]);
        assert(es2.drop_first() =~= es.drop_first().insert(p - 1, (k, v)));
        lemma_as_map_insert_at(es.drop_first(), p - 1, k, v);
        assert(es[0].0 != k);
        assert(as_map(es2) =~= as_map(es).insert(k, v));
    }
}

/// Replacing the value of an entry whose key occurs once updates that key
/// in the mapping.
proof fn lemma_as_map_update_at(es: Seq<(Seq<char>, Seq<char>)>, i: int, v: Seq<char>)
    requires
        0 <= i < es.len(),
        forall|j: int| 0 <= j < es.len() && j != i ==> es[j].0 != es[i].0,
    ensures
        as_map(es.update(i, (es[i].0, v))) == as_map(es).insert(es[i].0, v),
    decreases i,
{
    let es2 = es.update(i, (es[i].0, v));
    if i == 0 {
        assert(es2.drop_first() =~= es.drop_first());
        assert(es2[0] == (es[0].0, v));
        assert(as_map(es2) =~= as_map(es).insert(es[0].0, v));
    } else {
        assert(es2[0] == es[0]);
        assert(es2.drop_first() =~= es.drop_first().update(i - 1, (es[i].0, v)));
        assert forall|j: int|
            0 <= j < es.drop_first().len() && j != i - 1 implies (#[trigger] es.drop_first()[j]).0
            != es.drop_first()[i - 1].0 by {
            assert(es[j + 1].0 != es[i].0);
        }
        lemma_as_map_update_at(es.drop_first(), i - 1, v);
        assert(es[0].0 != es[i].0);
        assert(as_map(es2) =~= as_map(es).insert(es[i].0, v));
    }
}

/// Strictly key-sorted entry sequences standing for the same mapping are
/// the same sequence: the sorted entry order is canonical.
proof fn lemma_sorted_canonical(s1: Seq<(Seq<char>, Seq<char>)>, s2: Seq<(Seq<char>, Seq<char>)>)
    requires
        sorted_by_key(s1),
        sorted_by_key(s2),
        as_map(s1) == as_map(s2),
    ensures
        s1 == s2,
    decreases s1.len(),
{
    if s1.len() == 0 {
        if s2.len() > 0 {
            lemma_as_map_first_match(s2, 0);
            lemma_as_map_no_match(s1, s2[0].0);
        }
        assert(s1 =~= s2);
    } else if s2.len() == 0 {
        lemma_as_map_first_match(s1, 0);
        lemma_as_map_no_match(s2, s1[0].0);
        assert(s1 =~= s2);
    } else {
        lemma_sorted_unique(s1);
        lemma_sorted_unique(s2);
        // The first keys agree: each is the least key of the same mapping.
        lemma_as_map_first_match(s1, 0);
        lemma_as_map_first_match(s2, 0);
        lemma_as_map_key_has_entry(s2, s1[0].0);
        let j2 = choose|j: int| 0 <= j < s2.len() && s2[j].0 == s1[0].0;
        lemma_as_map_key_has_entry(s1, s2[0].0);
        let j1 = choose|j: int| 0 <= j < s1.len() && s1[j].0 == s2[0].0;
        if j1 > 0 && j2 > 0 {
            assert(lex_lt(s1[0].0, s1[j1].0));
            assert(lex_lt(s2[0].0, s2[j2].0));
            lemma_lex_lt_asymmetric(s1[0].0, s2[0].0);
        }
        assert(s1[0].0 == s2[0].0);
        assert(s1[0].1 == s2[0].1);
        // The rests stand for the mapping without the first key.
        let k = s1[0].0;
        assert forall|j: int| 0 <= j < s1.drop_first().len() implies (#[trigger] s1.drop_first()[j]).0 != k by {
            assert(s1[j + 1].0 != s1[0].0);
        }
        assert forall|j: int| 0 <= j < s2.drop_first().len() implies (#[trigger] s2.drop_first()[j]).0 != k by {
            assert(s2[j + 1].0 != s2[0].0);
        }
        lemma_as_map_no_match(s1.drop_first(), k);
        lemma_as_map_no_match(s2.drop_first(), k);
        assert(as_map(s1.drop_first()) =~= as_map(s1).remove(k));
        assert(as_map(s2.drop_first()) =~= as_map(s2).remove(k));
        assert forall|i: int, j: int|
            0 <= i < j < s1.drop_first().len() implies lex_lt(
            s1.drop_first()[i].0,
            s1.drop_first()[j].0,
        ) by {
            assert(lex_lt(s1[i + 1].0, s1[j + 1].0));
        }
        assert forall|i: int, j: int|
            0 <= i < j < s2.drop_first().len() implies lex_lt(
            s2.drop_first()[i].0,
            s2.drop_first()[j].0,
        ) by {
            assert(lex_lt(s2[i + 1].0, s2[j + 1].0));
        }
        lemma_sorted_canonical(s1.drop_first(), s2.drop_first());
        assert forall|i: int| 0 <= i < s1.len() implies s1[i] == s2[i] by {
            if i > 0 {
                assert(s1.drop_first()[i - 1] == s2.drop_first()[i - 1]);
            }
        }
        assert(s1 =~= s2);
    }
}

impl PropertyMap {
    /// An empty property mapping.
    pub fn new() -> (r: PropertyMap)
        ensures
            r@ == Map::<Seq<char>, Seq<char>>::empty(),
            r.wf(),
            r.entries() == Seq::<(Seq<char>, Seq<char>)>::empty(),
    {
        let items: Vec<(String, String)> = Vec::new();
        let r = PropertyMap { items };
        proof {
            assert(r.entries() =~= Seq::<(Seq<char>, Seq<char>)>::empty());
        }
        r
    }

    /// Looks up a property value by key; exact, case-sensitive match.
    #[verifier::loop_isolation(false)]
    pub fn get<'a>(&'a self, key: &str) -> (r: Option<&'a String>)
        ensures
            match r {
                Some(v) => self@.contains_key(key@) && v@ == self@[key@],
                None => !self@.contains_key(key@),
            },
    {
        let mut i: usize = 0;
        while i < self.items.len()
            invariant
                i <= self.items.len(),
                forall|j: int| 0 <= j < i ==> self.entries()[j].0 != key@,
            decreases self.items.len() - i,
        {
            if str_eq(self.items[i].0.as_str(), key) {
                proof {
                    lemma_as_map_first_match(self.entries(), i as int);
                }
                return Some(&self.items[i].1);
            }
            i += 1;
        }
        proof {
            lemma_as_map_no_match(self.entries(), key@);
        }
        None
    }

    /// Inserts a property, replacing the value if the key is present, and
    /// keeping the entries sorted by key.
    #[verifier::loop_isolation(false)]
    pub fn insert(&mut self, key: String, value: String)
        requires
            old(self).wf(),
        ensures
            final(self).wf(),
            final(self)@ == old(self)@.insert(key@, value@),
    {
        let ghost es0 = old(self).entries();
        let mut i: usize = 0;
        while i < self.items.len()
            invariant
                self == old(self),
                i <= self.items.len(),
                forall|j: int| 0 <= j < i ==> lex_lt(self.entries()[j].0, key@),
            decreases self.items.len() - i,
        {
            if !str_lt(self.items[i].0.as_str(), key.as_str()) {
                if str_eq(self.items[i].0.as_str(), key.as_str()) {
                    // Same key: replace the value, order unchanged.
                    let pair = self.items.remove(i);
                    self.items.insert(i, (pair.0, value));
                    proof {
                        assert(self.items@ =~= old(self).items@.update(
                            i as int,
                            (old(self).items@[i as int].0, value),
                        ));
                        assert(self.entries() =~= es0.update(i as int, (key@, value@)));
                        lemma_sorted_unique(es0);
                        assert(es0[i as int].0 == key@);
                        lemma_as_map_update_at(es0, i as int, value@);
                        assert forall|p: int, q: int|
                            0 <= p < q < self.entries().len() implies lex_lt(
                            self.entries()[p].0,
                            self.entries()[q].0,
                        ) by {
                            assert(self.entries()[p].0 == es0[p].0);
                            assert(self.entries()[q].0 == es0[q].0);
                        }
                    }
                    return ;
                } else {
                    // The scan stopped at the first larger key: insert here.
                    proof {
                        lemma_lex_lt_trichotomy(es0[i as int].0, key@);
                        assert(lex_lt(key@, es0[i as int].0));
                        assert forall|j: int| 0 <= j < es0.len() implies (#[trigger] es0[j]).0 != key@ by {
                            if j < i {
                                lemma_lex_lt_asymmetric(es0[j].0, key@);
                            } else if j == i {
                                lemma_lex_lt_asymmetric(key@, es0[j].0);
                            } else {
                                lemma_lex_lt_transitive(key@, es0[i as int].0, es0[j].0);
                                lemma_lex_lt_asymmetric(key@, es0[j].0);
                            }
                        }
                        lemma_as_map_insert_at(es0, i as int, key@, value@);
                    }
                    self.items.insert(i, (key, value));
                    proof {
                        assert(self.entries() =~= es0.insert(i as int, (key@, value@)));
                        assert forall|p: int, q: int|
                            0 <= p < q < self.entries().len() implies lex_lt(
                            self.entries()[p].0,
                            self.entries()[q].0,
                        ) by {
                            let e = self.entries();
                            if q < i {
                                assert(e[p] == es0[p] && e[q] == es0[q]);
                            } else if p > i {
                                assert(e[p] == es0[p - 1] && e[q] == es0[q - 1]);
                            } else if p < i && q == i {
                                assert(e[p] == es0[p]);
                            } else if p < i && q > i {
                                assert(e[p] == es0[p] && e[q] == es0[q - 1]);
                            } else if p == i && q > i {
                                assert(e[q] == es0[q - 1]);
                                if q > i + 1 {
                                    lemma_lex_lt_transitive(key@, es0[i as int].0, es0[q - 1].0);
                                }
                            }
                        }
                    }
                    return ;
                }
            }
            i += 1;
        }
        // Every key is smaller: append at the end.
        proof {
            assert forall|j: int| 0 <= j < es0.len() implies (#[trigger] es0[j]).0 != key@ by {
                lemma_lex_lt_asymmetric(es0[j].0, key@);
            }
            lemma_as_map_insert_at(es0, es0.len() as int, key@, value@);
        }
        self.items.push((key, value));
        proof {
            assert(self.entries() =~= es0.insert(es0.len() as int, (key@, value@)));
            assert(es0.insert(es0.len() as int, (key@, value@)) =~= es0.push((key@, value@)));
            assert forall|p: int, q: int|
                0 <= p < q < self.entries().len() implies lex_lt(
                self.entries()[p].0,
                self.entries()[q].0,
            ) by {
                let e = self.entries();
                if q < es0.len() {
                    assert(e[p] == es0[p] && e[q] == es0[q]);
                } else {
                    assert(e[p] == es0[p]);
                }
            }
        }
    }
}

/// The property keys excluded from the canonical encoding: a deliberate
/// simplification that downstream cache keys rely on, kept as a named,
/// explicit set.
pub open spec fn excluded_keys() -> Set<Seq<char>> {
    Set::new(|k: Seq<char>| k == "waterlogged"@ || k == "powered"@)
}

/// Whether a property key is left out of the canonical encoding.
pub fn is_excluded_key(key: &str) -> (r: bool)
    ensures
        r == excluded_keys().contains(key@),
{
    str_eq(key, "waterlogged") || str_eq(key, "powered")
}

/// The entries that take part in the canonical encoding: those whose key
/// is not excluded, in unchanged order.
pub open spec fn filter_props(es: Seq<(Seq<char>, Seq<char>)>) -> Seq<(Seq<char>, Seq<char>)>
    decreases es.len(),
{
    if es.len() == 0 {
        Seq::empty()
    } else if excluded_keys().contains(es[0].0) {
        filter_props(es.drop_first())
    } else {
        seq![es[0]] + filter_props(es.drop_first())
    }
}

/// One property assignment, written `key=value`.
pub open spec fn pair_str(p: (Seq<char>, Seq<char>)) -> Seq<char> {
    p.0 + "="@ + p.1
}

/// Property assignments each preceded by `,`: the join, after its first
/// element.
pub open spec fn props_str_tail(es: Seq<(Seq<char>, Seq<char>)>) -> Seq<char>
    decreases es.len(),
{
    if es.len() == 0 {
        Seq::empty()
    } else {
        ","@ + pair_str(es[0]) + props_str_tail(es.drop_first())
    }
}

/// Property assignments `key=value` joined with `,`.
pub open spec fn props_str(es: Seq<(Seq<char>, Seq<char>)>) -> Seq<char>
    decreases es.len(),
{
    if es.len() == 0 {
        Seq::empty()
    } else {
        pair_str(es[0]) + props_str_tail(es.drop_first())
    }
}

/// The canonical encoded description of a block: its name, a `|`, and the
/// non-excluded property assignments in key order.
pub open spec fn encoded_description_spec(
    name: Seq<char>,
    es: Seq<(Seq<char>, Seq<char>)>,
) -> Seq<char> {
    name + "|"@ + props_str(filter_props(es))
}

/// Every filtered entry is an entry of the sequence filtered, found past
/// any entries the filter dropped.
proof fn lemma_filter_props_subset(es: Seq<(Seq<char>, Seq<char>)>)
    ensures
        forall|t: int|
            0 <= t < filter_props(es).len() ==> exists|j: int|
                0 <= j < es.len() && #[trigger] filter_props(es)[t] == es[j],
    decreases es.len(),
{
    if es.len() > 0 {
        let rest = es.drop_first();
        lemma_filter_props_subset(rest);
        let f = filter_props(es);
        let fr = filter_props(rest);
        assert forall|t: int| 0 <= t < f.len() implies exists|j: int|
            0 <= j < es.len() && #[trigger] f[t] == es[j] by {
            if excluded_keys().contains(es[0].0) {
                assert(f[t] == fr[t]);
                let j0 = choose|j0: int| 0 <= j0 < rest.len() && fr[t] == rest[j0];
                assert(f[t] == es[j0 + 1]);
            } else if t == 0 {
                assert(f[0] == es[0]);
            } else {
                assert(f[t] == fr[t - 1]);
                let j0 = choose|j0: int| 0 <= j0 < rest.len() && fr[t - 1] == rest[j0];
                assert(f[t] == es[j0 + 1]);
            }
        }
    }
}

/// Filtering keeps the strict key order.
proof fn lemma_filter_props_sorted(es: Seq<(Seq<char>, Seq<char>)>)
    requires
        sorted_by_key(es),
    ensures
        sorted_by_key(filter_props(es)),
    decreases es.len(),
{
    if es.len() > 0 {
        let rest = es.drop_first();
        assert forall|i: int, j: int|
            0 <= i < j < rest.len() implies lex_lt((#[trigger] rest[i]).0, (#[trigger] rest[j]).0) by {
            assert(lex_lt(es[i + 1].0, es[j + 1].0));
        }
        lemma_filter_props_sorted(rest);
        lemma_filter_props_subset(rest);
        if !excluded_keys().contains(es[0].0) {
            let f = filter_props(es);
            let fr = filter_props(rest);
            assert forall|i: int, j: int|
                0 <= i < j < f.len() implies lex_lt((#[trigger] f[i]).0, (#[trigger] f[j]).0) by {
                if i == 0 {
                    assert(f[j] == fr[j - 1]);
                    let j0 = choose|j0: int| 0 <= j0 < rest.len() && fr[j - 1] == rest[j0];
                    assert(f[j] == es[j0 + 1]);
                    assert(lex_lt(es[0].0, es[j0 + 1].0));
                } else {
                    assert(f[i] == fr[i - 1] && f[j] == fr[j - 1]);
                    assert(lex_lt(fr[i - 1].0, fr[j - 1].0));
                }
            }
        }
    }
}

/// Filtering removes exactly the excluded keys from the mapping.
proof fn lemma_filter_props_as_map(es: Seq<(Seq<char>, Seq<char>)>)
    ensures
        as_map(filter_props(es)) == as_map(es).remove_keys(excluded_keys()),
    decreases es.len(),
{
    if es.len() == 0 {
        assert(as_map(filter_props(es)) =~= as_map(es).remove_keys(excluded_keys()));
    } else {
        let rest = es.drop_first();
        lemma_filter_props_as_map(rest);
        if excluded_keys().contains(es[0].0) {
            assert(as_map(filter_props(es)) =~= as_map(es).remove_keys(excluded_keys()));
        } else {
            let f = seq![es[0]] + filter_props(rest);
            assert(f.drop_first() =~= filter_props(rest));
            assert(f[0] == es[0]);
            assert(as_map(f) == as_map(filter_props(rest)).insert(es[0].0, es[0].1));
            assert(as_map(f) =~= as_map(es).remove_keys(excluded_keys()));
        }
    }
}

/// Excluded keys never affect the canonical encoding: under one name,
/// well-formed property mappings that agree outside the excluded keys
/// encode identically.
pub proof fn lemma_encoding_ignores_excluded(name: Seq<char>, p1: &PropertyMap, p2: &PropertyMap)
    requires
        p1.wf(),
        p2.wf(),
        p1@.remove_keys(excluded_keys()) == p2@.remove_keys(excluded_keys()),
    ensures
        encoded_description_spec(name, p1.entries()) == encoded_description_spec(
            name,
            p2.entries(),
        ),
{
    lemma_filter_props_sorted(p1.entries());
    lemma_filter_props_sorted(p2.entries());
    lemma_filter_props_as_map(p1.entries());
    lemma_filter_props_as_map(p2.entries());
    lemma_sorted_canonical(filter_props(p1.entries()), filter_props(p2.entries()));
}

/// Property-order independence: under one name, well-formed property
/// mappings that stand for the same mapping encode identically, however
/// their entries were inserted.
pub proof fn lemma_encoding_respects_map(name: Seq<char>, p1: &PropertyMap, p2: &PropertyMap)
    requires
        p1.wf(),
        p2.wf(),
        p1@ == p2@,
    ensures
        encoded_description_spec(name, p1.entries()) == encoded_description_spec(
            name,
            p2.entries(),
        ),
{
    assert(p1@.remove_keys(excluded_keys()) =~= p2@.remove_keys(excluded_keys()));
    lemma_encoding_ignores_excluded(name, p1, p2);
}

impl PropertyMap {
    /// The property part of the canonical encoding: the non-excluded
    /// entries as `key=value`, in entry order, joined with `,`.
    #[verifier::loop_isolation(false)]
    pub fn encoded_props(&self) -> (r: String)
        ensures
            r@ == props_str(filter_props(self.entries())),
    {
        let ghost es = self.entries();
        let mut acc = String::new();
        let mut started = false;
        let mut i: usize = 0;
        proof {
            assert(es.skip(0) =~= es);
        }
        while i < self.items.len()
            invariant
                i <= self.items.len(),
                !started ==> acc@ == Seq::<char>::empty() && filter_props(es) == filter_props(
                    es.skip(i as int),
                ),
                started ==> props_str(filter_props(es)) == acc@ + props_str_tail(
                    filter_props(es.skip(i as int)),
                ),
            decreases self.items.len() - i,
        {
            proof {
                assert(es.skip(i as int)[0] == es[i as int]);
                assert(es.skip(i as int).drop_first() =~= es.skip(i as int + 1));
            }
            if !is_excluded_key(self.items[i].0.as_str()) {
                let ghost acc0 = acc@;
                let ghost was_started = started;
                if started {
                    acc.append(",");
                } else {
                    started = true;
                }
                acc.append(self.items[i].0.as_str());
                acc.append("=");
                acc.append(self.items[i].1.as_str());
                proof {
                    let fs = filter_props(es.skip(i as int + 1));
                    assert(filter_props(es.skip(i as int)) == seq![es[i as int]] + fs);
                    assert((seq![es[i as int]] + fs).drop_first() =~= fs);
                    assert((seq![es[i as int]] + fs)[0] == es[i as int]);
                    if was_started {
                        assert(acc@ =~= acc0 + (","@ + pair_str(es[i as int])));
                        assert(acc0 + (","@ + pair_str(es[i as int]) + props_str_tail(fs)) =~= acc@
                            + props_str_tail(fs));
                        assert(props_str_tail(filter_props(es.skip(i as int))) == ","@ + pair_str(
                            es[i as int],
                        ) + props_str_tail(fs));
                        assert(props_str(filter_props(es)) == acc0 + props_str_tail(
                            filter_props(es.skip(i as int)),
                        ));
                        assert(acc0 + (","@ + pair_str(es[i as int]) + props_str_tail(fs)) =~= acc0
                            + props_str_tail(filter_props(es.skip(i as int))));
                        assert(props_str(filter_props(es)) == acc@ + props_str_tail(
                            filter_props(es.skip(i as int + 1)),
                        ));
                    } else {
                        assert(acc@ =~= pair_str(es[i as int]));
                        assert(props_str(filter_props(es.skip(i as int))) == pair_str(es[i as int])
                            + props_str_tail(fs));
                        assert(filter_props(es) == filter_props(es.skip(i as int)));
                        assert(props_str(filter_props(es)) =~= acc@ + props_str_tail(
                            filter_props(es.skip(i as int + 1)),
                        ));
                    }
                }
            } else {
                proof {
                    assert(filter_props(es.skip(i as int)) == filter_props(es.skip(i as int + 1)));
                }
            }
            i += 1;
        }
        proof {
            assert(es.skip(es.len() as int) =~= Seq::<(Seq<char>, Seq<char>)>::empty());
            if started {
                assert(props_str(filter_props(es)) =~= acc@ + props_str_tail(
                    filter_props(es.skip(es.len() as int)),
                ));
                assert(acc@ + props_str_tail(filter_props(es.skip(es.len() as int))) =~= acc@);
            } else {
                assert(acc@ =~= props_str(filter_props(es)));
            }
        }
        acc
    }
}

} // verus!
