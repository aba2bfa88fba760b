//! Reasoning helpers for object field lists: first-match lookup, the
//! declared-key/extension split, and their executable counterparts.
use vstd::prelude::*;

use crate::value::{fields_view, SpecFields, SpecValue, Value};
use crate::value::str_eq;

verus! {

broadcast use vstd::std_specs::vec::group_vec_axioms, vstd::seq::group_seq_axioms;

/// First-match lookup of a key in a field list.
pub open spec fn lookup(fs: SpecFields, k: Seq<char>) -> Option<SpecValue>
    decreases fs.len(),
{
    if fs.len() == 0 {
        None
    } else if fs[0].0 == k {
        Some(fs[0].1)
    } else {
        lookup(fs.drop_first(), k)
    }
}

pub open spec fn has_key(fs: SpecFields, k: Seq<char>) -> bool {
    lookup(fs, k) is Some
}

/// A field list of zero or one entries: the encoded form of an optional field.
pub open spec fn opt_entry(k: Seq<char>, o: Option<SpecValue>) -> SpecFields {
    match o {
        Some(v) => seq![(k, v)],
        None => Seq::empty(),
    }
}

/// Whether a key is an extension key, that is, not one of the declared keys.
pub open spec fn is_unknown_key(k: Seq<char>, known: Seq<Seq<char>>) -> bool {
    !known.contains(k)
}

/// The extension fields of a field list: those whose key is not declared,
/// in their original order.
pub open spec fn restrict_unknown(fs: SpecFields, known: Seq<Seq<char>>) -> SpecFields {
    fs.filter(|p: (Seq<char>, SpecValue)| is_unknown_key(p.0, known))
}

/// Every key of the field list avoids the declared keys.
pub open spec fn keys_disjoint(fs: SpecFields, known: Seq<Seq<char>>) -> bool {
    forall|i: int| 0 <= i < fs.len() ==> is_unknown_key(#[trigger] fs[i].0, known)
}

pub broadcast proof fn lemma_lookup_concat(a: SpecFields, b: SpecFields, k: Seq<char>)
    ensures
        #[trigger] lookup(a + b, k) == if has_key(a, k) {
            lookup(a, k)
        } else {
            lookup(b, k)
        },
    decreases a.len(),
{
    if a.len() == 0 {
        assert(a + b =~= b);
    } else {
        assert((a + b)[0] == a[0]);
        assert((a + b).drop_first() =~= a.drop_first() + b);
        lemma_lookup_concat(a.drop_first(), b, k);
    }
}

pub broadcast proof fn lemma_lookup_opt_entry(k: Seq<char>, o: Option<SpecValue>, k2: Seq<char>)
    ensures
        #[trigger] lookup(opt_entry(k, o), k2) == if k2 == k {
            o
        } else {
            None::<SpecValue>
        },
{
    match o {
        None => {
            assert(opt_entry(k, o).len() == 0);
        },
        Some(v) => {
            let s = opt_entry(k, o);
            assert(s.len() == 1 && s[0] == (k, v));
            if k2 != k {
                assert(s.drop_first().len() == 0);
                assert(lookup(s.drop_first(), k2) is None);
            }
        },
    }
}

pub broadcast proof fn lemma_unknown_concat(a: SpecFields, b: SpecFields, known: Seq<Seq<char>>)
    ensures
        #[trigger] restrict_unknown(a + b, known) == restrict_unknown(a, known) + restrict_unknown(
            b,
            known,
        ),
{
    Seq::filter_distributes_over_add(a, b, |p: (Seq<char>, SpecValue)| is_unknown_key(p.0, known));
}

pub broadcast proof fn lemma_unknown_opt_entry(
    k: Seq<char>,
    o: Option<SpecValue>,
    known: Seq<Seq<char>>,
)
    ensures
        #[trigger] restrict_unknown(opt_entry(k, o), known) == if known.contains(k) {
            Seq::<(Seq<char>, SpecValue)>::empty()
        } else {
            opt_entry(k, o)
        },
{
    reveal_with_fuel(Seq::filter, 3);
    match o {
        None => {
            assert(opt_entry(k, o) =~= Seq::<(Seq<char>, SpecValue)>::empty());
            assert(restrict_unknown(opt_entry(k, o), known) =~= Seq::<(
                Seq<char>,
                SpecValue,
            )>::empty());
        },
        Some(v) => {
            let s = opt_entry(k, o);
            assert(s.drop_last() =~= Seq::<(Seq<char>, SpecValue)>::empty());
            assert(s.last() == (k, v));
            if known.contains(k) {
                assert(restrict_unknown(s, known) =~= Seq::<(Seq<char>, SpecValue)>::empty());
            } else {
                assert(restrict_unknown(s, known) =~= s);
            }
        },
    }
}

/// Filtering keeps a field list whose keys are all extension keys unchanged.
pub proof fn lemma_unknown_disjoint(fs: SpecFields, known: Seq<Seq<char>>)
    requires
        keys_disjoint(fs, known),
    ensures
        restrict_unknown(fs, known) == fs,
    decreases fs.len(),
{
    reveal(Seq::filter);
    if fs.len() == 0 {
        assert(restrict_unknown(fs, known) =~= fs);
    } else {
        assert(keys_disjoint(fs.drop_last(), known)) by {
            assert(forall|i: int|
                0 <= i < fs.drop_last().len() ==> #[trigger] fs.drop_last()[i] == fs[i]);
        }
        lemma_unknown_disjoint(fs.drop_last(), known);
        assert(is_unknown_key(fs.last().0, known));
        assert(restrict_unknown(fs, known) =~= fs.drop_last() + seq![fs.last()]);
        assert(fs.drop_last() + seq![fs.last()] =~= fs);
    }
}

/// A declared key is never found among extension fields.
pub proof fn lemma_lookup_disjoint(fs: SpecFields, known: Seq<Seq<char>>, k: Seq<char>)
    requires
        keys_disjoint(fs, known),
        known.contains(k),
    ensures
        lookup(fs, k) is None,
    decreases fs.len(),
{
    if fs.len() > 0 {
        assert(is_unknown_key(fs[0].0, known));
        assert(fs[0].0 != k);
        assert(keys_disjoint(fs.drop_first(), known)) by {
            assert(forall|i: int|
                0 <= i < fs.drop_first().len() ==> #[trigger] fs.drop_first()[i] == fs[i + 1]);
        }
        lemma_lookup_disjoint(fs.drop_first(), known, k);
    }
}

/// A field kept by the extension split is a field of the original list.
pub proof fn lemma_unknown_field_preserved(
    fs: SpecFields,
    known: Seq<Seq<char>>,
    i: int,
)
    requires
        0 <= i < fs.len(),
        is_unknown_key(fs[i].0, known),
    ensures
        restrict_unknown(fs, known).contains(fs[i]),
{
    let pred = |p: (Seq<char>, SpecValue)| is_unknown_key(p.0, known);
    fs.lemma_filter_contains(pred, i);
}

/// The spec keys of an exec key list.
pub open spec fn keys_of(ks: Seq<String>) -> Seq<Seq<char>> {
    Seq::new(ks.len(), |i: int| ks[i]@)
}

/// First-match lookup of a field by name.
pub fn lookup_field<'a>(fields: &'a Vec<(String, Value)>, name: &str) -> (r: Option<&'a Value>)
    ensures
        match r {
            Some(v) => lookup(fields_view(fields@), name@) == Some(v@),
            None => lookup(fields_view(fields@), name@) is None,
        },
{
    let ghost fs = fields_view(fields@);
    let mut i: usize = 0;
    proof {
        assert(fs.subrange(0, fs.len() as int) =~= fs);
    }
    while i < fields.len()
        invariant
            i <= fields.len(),
            fs == fields_view(fields@),
            fs.len() == fields@.len(),
            lookup(fs, name@) == lookup(fs.subrange(i as int, fs.len() as int), name@),
        decreases fields.len() - i,
    {
        proof {
            assert(fs.subrange(i as int, fs.len() as int)[0] == fs[i as int]);
        }
        if str_eq(fields[i].0.as_str(), name) {
            proof {
                assert(lookup(fs.subrange(i as int, fs.len() as int), name@) == Some(
                    fs[i as int].1,
                ));
            }
            return Some(&fields[i].1);
        }
        proof {
            assert(fs.subrange(i as int, fs.len() as int).drop_first() =~= fs.subrange(
                i as int + 1,
                fs.len() as int,
            ));
        }
        i = i + 1;
    }
    proof {
        assert(fs.subrange(i as int, fs.len() as int).len() == 0);
    }
    None
}

/// Whether a key list holds the given key.
pub fn contains_key(known: &Vec<String>, k: &String) -> (r: bool)
    ensures
        r == keys_of(known@).contains(k@),
{
    let mut i: usize = 0;
    while i < known.len()
        invariant
            i <= known.len(),
            forall|j: int| 0 <= j < i ==> keys_of(known@)[j] != k@,
        decreases known.len() - i,
    {
        if str_eq(known[i].as_str(), k.as_str()) {
            proof {
                assert(keys_of(known@)[i as int] == k@);
            }
            return true;
        }
        i = i + 1;
    }
    proof {
        assert(forall|j: int| 0 <= j < keys_of(known@).len() ==> keys_of(known@)[j] != k@);
    }
    false
}

/// Collects the extension fields: those whose key is not declared, in order.
pub fn collect_unknown(fields: &Vec<(String, Value)>, known: &Vec<String>) -> (r: Vec<
    (String, Value),
>)
    ensures
        fields_view(r@) == restrict_unknown(fields_view(fields@), keys_of(known@)),
{
    let ghost fs = fields_view(fields@);
    let ghost ks = keys_of(known@);
    let mut out: Vec<(String, Value)> = Vec::new();
    let mut i: usize = 0;
    proof {
        reveal(Seq::filter);
        assert(fs.subrange(0, 0) =~= Seq::<(Seq<char>, SpecValue)>::empty());
        assert(fields_view(out@) =~= restrict_unknown(fs.subrange(0, 0), ks));
    }
    while i < fields.len()
        invariant
            i <= fields.len(),
            fs == fields_view(fields@),
            ks == keys_of(known@),
            fs.len() == fields@.len(),
            fields_view(out@) == restrict_unknown(fs.subrange(0, i as int), ks),
        decreases fields.len() - i,
    {
        let keep = !contains_key(known, &fields[i].0);
        proof {
            reveal(Seq::filter);
            let pre = fs.subrange(0, i as int);
            let cur = fs.subrange(0, i as int + 1);
            assert(cur.drop_last() =~= pre);
            assert(cur.last() == fs[i as int]);
            if keep {
                assert(restrict_unknown(cur, ks) =~= restrict_unknown(pre, ks).push(
                    fs[i as int],
                ));
            } else {
                assert(restrict_unknown(cur, ks) == restrict_unknown(pre, ks));
            }
        }
        if keep {
            let k = fields[i].0.clone();
            let v = fields[i].1.deep_copy();
            out.push((k, v));
            proof {
                assert(fields_view(out@) =~= restrict_unknown(fs.subrange(0, i as int + 1), ks));
            }
        }
        i = i + 1;
    }
    proof {
        assert(fs.subrange(0, fs.len() as int) =~= fs);
    }
    out
}

pub broadcast proof fn lemma_concat_contains(a: SpecFields, b: SpecFields, x: (Seq<char>, SpecValue))
    ensures
        #[trigger] (a + b).contains(x) <==> a.contains(x) || b.contains(x),
{
    if (a + b).contains(x) {
        let j = choose|j: int| 0 <= j < (a + b).len() && (a + b)[j] == x;
        if j < a.len() {
            assert(a[j] == x);
        } else {
            assert(b[j - a.len()] == x);
        }
    }
    if a.contains(x) {
        let j = choose|j: int| 0 <= j < a.len() && a[j] == x;
        assert((a + b)[j] == x);
    }
    if b.contains(x) {
        let j = choose|j: int| 0 <= j < b.len() && b[j] == x;
        assert((a + b)[a.len() + j] == x);
    }
}

/// The extension fields of any field list avoid the declared keys.
pub proof fn lemma_restrict_unknown_disjoint(fs: SpecFields, known: Seq<Seq<char>>)
    ensures
        keys_disjoint(restrict_unknown(fs, known), known),
{
    let pred = |p: (Seq<char>, SpecValue)| is_unknown_key(p.0, known);
    assert forall|i: int| 0 <= i < restrict_unknown(fs, known).len() implies is_unknown_key(
        #[trigger] restrict_unknown(fs, known)[i].0,
        known,
    ) by {
        fs.lemma_filter_pred(pred, i);
    }
}

} // verus!
