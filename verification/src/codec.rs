//! The contract every schema entity satisfies: it decodes from and encodes to
//! a structured value, and decoding inverts encoding.
use vstd::prelude::*;

use crate::value::{SpecFields, SpecValue, Value};

verus! {

broadcast use vstd::std_specs::vec::group_vec_axioms, vstd::seq::group_seq_axioms;

/// A type that maps between its model and a document value.
pub trait Codec: View + Sized {
    /// The well-formed models: what decoding produces and constructors
    /// should establish.
    spec fn wf(m: Self::V) -> bool;

    /// The model a value decodes to, if the value has the right shape.
    spec fn decode_spec(v: SpecValue) -> Option<Self::V>;

    /// The value a model encodes to.
    spec fn encode_spec(m: Self::V) -> SpecValue;

    /// Law: decoding inverts encoding on every well-formed model.
    proof fn law_round_trip(m: Self::V)
        requires
            Self::wf(m),
        ensures
            Self::decode_spec(Self::encode_spec(m)) == Some(m),
    ;

    /// Decodes a value; returns the entity exactly when the value matches.
    fn decode(v: &Value) -> (r: Option<Self>)
        ensures
            match r {
                Some(t) => Self::decode_spec(v@) == Some(t@),
                None => Self::decode_spec(v@) is None,
            },
    ;

    /// Encodes the entity back to a value.
    fn encode(&self) -> (r: Value)
        ensures
            r@ == Self::encode_spec(self@),
    ;
}

/// The model of an optional entity.
pub open spec fn opt_view<T: View>(x: Option<T>) -> Option<T::V> {
    match x {
        Some(t) => Some(t@),
        None => None,
    }
}

/// The model of an optional borrowed value, as a field lookup hands it out.
pub open spec fn osv(o: Option<&Value>) -> Option<SpecValue> {
    match o {
        Some(v) => Some(v@),
        None => None,
    }
}

/// A well-formed model for an optional entity field: the entity is well
/// formed and does not encode to null, which would read back as an absent
/// field.
pub open spec fn opt_codec_wf<T: Codec>(x: Option<T::V>) -> bool {
    match x {
        Some(m) => T::wf(m) && T::encode_spec(m) != SpecValue::Null,
        None => true,
    }
}

/// The model of an element list.
pub open spec fn arr_view<T: View>(xs: Seq<T>) -> Seq<T::V> {
    Seq::new(xs.len(), |i: int| xs[i]@)
}

/// The model of a named entity list.
pub open spec fn map_view<T: View>(xs: Seq<(String, T)>) -> Seq<(Seq<char>, T::V)> {
    Seq::new(xs.len(), |i: int| (xs[i].0@, xs[i].1@))
}

/// The model of a named optional entity list.
pub open spec fn nmap_view<T: View>(xs: Seq<(String, Option<T>)>) -> Seq<
    (Seq<char>, Option<T::V>),
> {
    Seq::new(xs.len(), |i: int| (xs[i].0@, opt_view(xs[i].1)))
}

/// Decodes every element of an array as a `T`.
pub open spec fn dec_codec_arr<T: Codec>(v: SpecValue) -> Option<Seq<T::V>> {
    match v {
        SpecValue::Arr(items) => dec_codec_items::<T>(items),
        _ => None,
    }
}

pub open spec fn dec_codec_items<T: Codec>(items: Seq<SpecValue>) -> Option<Seq<T::V>>
    decreases items.len(),
{
    if items.len() == 0 {
        Some(Seq::empty())
    } else {
        match T::decode_spec(items[0]) {
            Some(m) => match dec_codec_items::<T>(items.drop_first()) {
                Some(rest) => Some(seq![m] + rest),
                None => None,
            },
            None => None,
        }
    }
}

/// Encodes an entity list as an array.
pub open spec fn enc_codec_arr<T: Codec>(m: Seq<T::V>) -> SpecValue {
    SpecValue::Arr(Seq::new(m.len(), |i: int| T::encode_spec(m[i])))
}

/// Decodes every value of an object as a `T`, keeping names and order.
pub open spec fn dec_codec_map<T: Codec>(fs: SpecFields) -> Option<Seq<(Seq<char>, T::V)>>
    decreases fs.len(),
{
    if fs.len() == 0 {
        Some(Seq::empty())
    } else {
        match T::decode_spec(fs[0].1) {
            Some(m) => match dec_codec_map::<T>(fs.drop_first()) {
                Some(rest) => Some(seq![(fs[0].0, m)] + rest),
                None => None,
            },
            None => None,
        }
    }
}

/// Encodes a named entity list as an object.
pub open spec fn enc_codec_map<T: Codec>(m: Seq<(Seq<char>, T::V)>) -> SpecFields {
    Seq::new(m.len(), |i: int| (m[i].0, T::encode_spec(m[i].1)))
}

/// Decodes every value of an object as a `T` or an explicit null, keeping
/// names and order.
pub open spec fn dec_nullable_codec_map<T: Codec>(fs: SpecFields) -> Option<
    Seq<(Seq<char>, Option<T::V>)>,
>
    decreases fs.len(),
{
    if fs.len() == 0 {
        Some(Seq::empty())
    } else {
        let head = if fs[0].1 == SpecValue::Null {
            Some(None)
        } else {
            match T::decode_spec(fs[0].1) {
                Some(m) => Some(Some(m)),
                None => None,
            }
        };
        match head {
            Some(h) => match dec_nullable_codec_map::<T>(fs.drop_first()) {
                Some(rest) => Some(seq![(fs[0].0, h)] + rest),
                None => None,
            },
            None => None,
        }
    }
}

/// Encodes a named optional entity list as an object; an absent entity is an
/// explicit null.
pub open spec fn enc_nullable_codec_map<T: Codec>(m: Seq<(Seq<char>, Option<T::V>)>) -> SpecFields {
    Seq::new(
        m.len(),
        |i: int|
            (
                m[i].0,
                match m[i].1 {
                    Some(tm) => T::encode_spec(tm),
                    None => SpecValue::Null,
                },
            ),
    )
}

/// Law: an array of well-formed entities decodes back to the same list.
pub proof fn lemma_codec_arr_round_trip<T: Codec>(m: Seq<T::V>)
    requires
        forall|i: int| 0 <= i < m.len() ==> T::wf(#[trigger] m[i]),
    ensures
        dec_codec_arr::<T>(enc_codec_arr::<T>(m)) == Some(m),
    decreases m.len(),
{
    let items = Seq::new(m.len(), |i: int| T::encode_spec(m[i]));
    if m.len() == 0 {
        assert(dec_codec_items::<T>(items) == Some(Seq::<T::V>::empty()));
        assert(Seq::<T::V>::empty() =~= m);
    } else {
        T::law_round_trip(m[0]);
        lemma_codec_arr_round_trip::<T>(m.drop_first());
        let sub = Seq::new(m.drop_first().len(), |i: int| T::encode_spec(m.drop_first()[i]));
        assert(items.drop_first() =~= sub);
        assert(dec_codec_items::<T>(sub) == Some(m.drop_first()));
        assert(seq![m[0]] + m.drop_first() =~= m);
    }
}

/// Law: an object of well-formed named entities decodes back to the same
/// named list, names and order kept.
pub proof fn lemma_codec_map_round_trip<T: Codec>(m: Seq<(Seq<char>, T::V)>)
    requires
        forall|i: int| 0 <= i < m.len() ==> T::wf(#[trigger] m[i].1),
    ensures
        dec_codec_map::<T>(enc_codec_map::<T>(m)) == Some(m),
    decreases m.len(),
{
    let fs = enc_codec_map::<T>(m);
    if m.len() == 0 {
        assert(Seq::<(Seq<char>, T::V)>::empty() =~= m);
    } else {
        T::law_round_trip(m[0].1);
        lemma_codec_map_round_trip::<T>(m.drop_first());
        assert(fs.drop_first() =~= enc_codec_map::<T>(m.drop_first()));
        assert(seq![(m[0].0, m[0].1)] + m.drop_first() =~= m);
        assert((m[0].0, m[0].1) == m[0]);
    }
}

/// Law: an object of well-formed named optional entities decodes back to the
/// same named list; an explicit null reads back as the absent entity.
pub proof fn lemma_nullable_codec_map_round_trip<T: Codec>(m: Seq<(Seq<char>, Option<T::V>)>)
    requires
        forall|i: int| 0 <= i < m.len() ==> opt_codec_wf::<T>(#[trigger] m[i].1),
    ensures
        dec_nullable_codec_map::<T>(enc_nullable_codec_map::<T>(m)) == Some(m),
    decreases m.len(),
{
    let fs = enc_nullable_codec_map::<T>(m);
    if m.len() == 0 {
        assert(Seq::<(Seq<char>, Option<T::V>)>::empty() =~= m);
    } else {
        match m[0].1 {
            Some(tm) => {
                T::law_round_trip(tm);
            },
            None => {
            },
        }
        lemma_nullable_codec_map_round_trip::<T>(m.drop_first());
        assert(fs.drop_first() =~= enc_nullable_codec_map::<T>(m.drop_first()));
        assert(seq![(m[0].0, m[0].1)] + m.drop_first() =~= m);
        assert((m[0].0, m[0].1) == m[0]);
    }
}

/// Decodes an array field whose elements are `T`s.
pub fn decode_codec_arr<T: Codec>(v: &Value) -> (r: Option<Vec<T>>)
    ensures
        match r {
            Some(xs) => dec_codec_arr::<T>(v@) == Some(arr_view(xs@)),
            None => dec_codec_arr::<T>(v@) is None,
        },
{
    let items = match v {
        Value::Arr(items) => items,
        _ => {
            return None;
        },
    };
    proof {
        crate::value::lemma_arr_view(*items);
    }
    let ghost whole = crate::value::items_view(items@);
    let mut out: Vec<T> = Vec::new();
    let mut i: usize = 0;
    proof {
        assert(whole.subrange(0, whole.len() as int) =~= whole);
        match dec_codec_items::<T>(whole) {
            Some(rest) => {
                assert(arr_view(out@) + rest =~= rest);
            },
            None => {
            },
        }
    }
    while i < items.len()
        invariant
            i <= items.len(),
            v@ == SpecValue::Arr(whole),
            whole == crate::value::items_view(items@),
            whole.len() == items@.len(),
            arr_view(out@).len() == i as nat,
            dec_codec_items::<T>(whole) == match dec_codec_items::<T>(
                whole.subrange(i as int, whole.len() as int),
            ) {
                Some(rest) => Some(arr_view(out@) + rest),
                None => None::<Seq<T::V>>,
            },
        decreases items.len() - i,
    {
        let ghost rem = whole.subrange(i as int, whole.len() as int);
        proof {
            assert(rem[0] == whole[i as int]);
            assert(rem.drop_first() =~= whole.subrange(i as int + 1, whole.len() as int));
        }
        match T::decode(&items[i]) {
            Some(t) => {
                let ghost pre = arr_view(out@);
                out.push(t);
                proof {
                    assert(arr_view(out@) =~= pre.push(t@));
                    match dec_codec_items::<T>(whole.subrange(i as int + 1, whole.len() as int)) {
                        Some(r2) => {
                            assert(pre + (seq![t@] + r2) =~= pre.push(t@) + r2);
                        },
                        None => {
                        },
                    }
                }
            },
            None => {
                return None;
            },
        }
        i = i + 1;
    }
    proof {
        assert(whole.subrange(i as int, whole.len() as int).len() == 0);
        assert(arr_view(out@) + Seq::<T::V>::empty() =~= arr_view(out@));
    }
    Some(out)
}

/// Encodes an entity list as an array value.
pub fn encode_codec_arr<T: Codec>(xs: &Vec<T>) -> (r: Value)
    ensures
        r@ == enc_codec_arr::<T>(arr_view(xs@)),
{
    let mut out: Vec<Value> = Vec::new();
    let mut i: usize = 0;
    while i < xs.len()
        invariant
            i <= xs.len(),
            out@.len() == i as nat,
            forall|j: int| 0 <= j < i ==> out@[j]@ == T::encode_spec(xs@[j]@),
        decreases xs.len() - i,
    {
        let v = xs[i].encode();
        out.push(v);
        i = i + 1;
    }
    proof {
        crate::value::lemma_arr_view(out);
        assert(crate::value::items_view(out@) =~= Seq::new(
            arr_view(xs@).len(),
            |i: int| T::encode_spec(arr_view(xs@)[i]),
        ));
    }
    Value::Arr(out)
}

/// Decodes an object field whose values are `T`s, keeping names and order.
pub fn decode_codec_map<T: Codec>(fields: &Vec<(String, Value)>) -> (r: Option<
    Vec<(String, T)>,
>)
    ensures
        match r {
            Some(xs) => dec_codec_map::<T>(crate::value::fields_view(fields@)) == Some(
                map_view(xs@),
            ),
            None => dec_codec_map::<T>(crate::value::fields_view(fields@)) is None,
        },
{
    let ghost whole = crate::value::fields_view(fields@);
    let mut out: Vec<(String, T)> = Vec::new();
    let mut i: usize = 0;
    proof {
        assert(whole.subrange(0, whole.len() as int) =~= whole);
        match dec_codec_map::<T>(whole) {
            Some(rest) => {
                assert(map_view(out@) + rest =~= rest);
            },
            None => {
            },
        }
    }
    while i < fields.len()
        invariant
            i <= fields.len(),
            whole == crate::value::fields_view(fields@),
            whole.len() == fields@.len(),
            map_view(out@).len() == i as nat,
            dec_codec_map::<T>(whole) == match dec_codec_map::<T>(
                whole.subrange(i as int, whole.len() as int),
            ) {
                Some(rest) => Some(map_view(out@) + rest),
                None => None::<Seq<(Seq<char>, T::V)>>,
            },
        decreases fields.len() - i,
    {
        let ghost rem = whole.subrange(i as int, whole.len() as int);
        proof {
            assert(rem[0] == whole[i as int]);
            assert(rem.drop_first() =~= whole.subrange(i as int + 1, whole.len() as int));
        }
        match T::decode(&fields[i].1) {
            Some(t) => {
                let k = fields[i].0.clone();
                let ghost pre = map_view(out@);
                out.push((k, t));
                proof {
                    assert(map_view(out@) =~= pre.push((fields@[i as int].0@, t@)));
                    match dec_codec_map::<T>(whole.subrange(i as int + 1, whole.len() as int)) {
                        Some(r2) => {
                            assert(pre + (seq![(whole[i as int].0, t@)] + r2) =~= pre.push(
                                (whole[i as int].0, t@),
                            ) + r2);
                        },
                        None => {
                        },
                    }
                }
            },
            None => {
                return None;
            },
        }
        i = i + 1;
    }
    proof {
        assert(whole.subrange(i as int, whole.len() as int).len() == 0);
        match dec_codec_map::<T>(whole) {
            Some(rest) => {
                assert(map_view(out@) + Seq::<(Seq<char>, T::V)>::empty() =~= map_view(out@));
            },
            None => {
            },
        }
    }
    Some(out)
}

/// Encodes a named entity list as an object field list.
pub fn encode_codec_map<T: Codec>(xs: &Vec<(String, T)>) -> (r: Vec<(String, Value)>)
    ensures
        crate::value::fields_view(r@) == enc_codec_map::<T>(map_view(xs@)),
{
    let mut out: Vec<(String, Value)> = Vec::new();
    let mut i: usize = 0;
    while i < xs.len()
        invariant
            i <= xs.len(),
            out@.len() == i as nat,
            forall|j: int|
                0 <= j < i ==> out@[j].0@ == xs@[j].0@ && out@[j].1@ == T::encode_spec(xs@[j].1@),
        decreases xs.len() - i,
    {
        let k = xs[i].0.clone();
        let v = xs[i].1.encode();
        out.push((k, v));
        i = i + 1;
    }
    proof {
        assert(crate::value::fields_view(out@) =~= enc_codec_map::<T>(map_view(xs@)));
    }
    out
}

/// Decodes an object field whose values are `T`s or explicit nulls, keeping
/// names and order.
pub fn decode_nullable_codec_map<T: Codec>(fields: &Vec<(String, Value)>) -> (r: Option<
    Vec<(String, Option<T>)>,
>)
    ensures
        match r {
            Some(xs) => dec_nullable_codec_map::<T>(crate::value::fields_view(fields@)) == Some(
                nmap_view(xs@),
            ),
            None => dec_nullable_codec_map::<T>(crate::value::fields_view(fields@)) is None,
        },
{
    let ghost whole = crate::value::fields_view(fields@);
    let mut out: Vec<(String, Option<T>)> = Vec::new();
    let mut i: usize = 0;
    proof {
        assert(whole.subrange(0, whole.len() as int) =~= whole);
        match dec_nullable_codec_map::<T>(whole) {
            Some(rest) => {
                assert(nmap_view(out@) + rest =~= rest);
            },
            None => {
            },
        }
    }
    while i < fields.len()
        invariant
            i <= fields.len(),
            whole == crate::value::fields_view(fields@),
            whole.len() == fields@.len(),
            nmap_view(out@).len() == i as nat,
            dec_nullable_codec_map::<T>(whole) == match dec_nullable_codec_map::<T>(
                whole.subrange(i as int, whole.len() as int),
            ) {
                Some(rest) => Some(nmap_view(out@) + rest),
                None => None::<Seq<(Seq<char>, Option<T::V>)>>,
            },
        decreases fields.len() - i,
    {
        let ghost rem = whole.subrange(i as int, whole.len() as int);
        proof {
            assert(rem[0] == whole[i as int]);
            assert(rem.drop_first() =~= whole.subrange(i as int + 1, whole.len() as int));
        }
        let entry: Option<T> = if let Value::Null = &fields[i].1 {
            None
        } else {
            proof {
                crate::value::lemma_view_not_null(&fields@[i as int].1);
            }
            match T::decode(&fields[i].1) {
                Some(t) => Some(t),
                None => {
                    return None;
                },
            }
        };
        let k = fields[i].0.clone();
        let ghost pre = nmap_view(out@);
        let ghost h = opt_view(entry);
        out.push((k, entry));
        proof {
            assert(nmap_view(out@) =~= pre.push((whole[i as int].0, h)));
            match dec_nullable_codec_map::<T>(whole.subrange(i as int + 1, whole.len() as int)) {
                Some(r2) => {
                    assert(pre + (seq![(whole[i as int].0, h)] + r2) =~= pre.push(
                        (whole[i as int].0, h),
                    ) + r2);
                },
                None => {
                },
            }
        }
        i = i + 1;
    }
    proof {
        assert(whole.subrange(i as int, whole.len() as int).len() == 0);
        match dec_nullable_codec_map::<T>(whole) {
            Some(rest) => {
                assert(nmap_view(out@) + Seq::<(Seq<char>, Option<T::V>)>::empty() =~= nmap_view(
                    out@,
                ));
            },
            None => {
            },
        }
    }
    Some(out)
}

/// Encodes a named optional entity list as an object field list; an absent
/// entity becomes an explicit null.
pub fn encode_nullable_codec_map<T: Codec>(xs: &Vec<(String, Option<T>)>) -> (r: Vec<
    (String, Value),
>)
    ensures
        crate::value::fields_view(r@) == enc_nullable_codec_map::<T>(nmap_view(xs@)),
{
    let mut out: Vec<(String, Value)> = Vec::new();
    let mut i: usize = 0;
    while i < xs.len()
        invariant
            i <= xs.len(),
            out@.len() == i as nat,
            forall|j: int|
                0 <= j < i ==> out@[j].0@ == xs@[j].0@ && out@[j].1@ == (match opt_view(xs@[j].1) {
                    Some(tm) => T::encode_spec(tm),
                    None => SpecValue::Null,
                }),
        decreases xs.len() - i,
    {
        let k = xs[i].0.clone();
        let v: Value = match &xs[i].1 {
            Some(t) => t.encode(),
            None => Value::Null,
        };
        out.push((k, v));
        i = i + 1;
    }
    proof {
        assert(crate::value::fields_view(out@) =~= enc_nullable_codec_map::<T>(nmap_view(xs@)));
    }
    out
}

/// The model of an optional string.
pub open spec fn opt_str_view(x: Option<String>) -> Option<Seq<char>> {
    match x {
        Some(s) => Some(s@),
        None => None,
    }
}

/// The model of a string list.
pub open spec fn strs_view(ss: Seq<String>) -> Seq<Seq<char>> {
    Seq::new(ss.len(), |i: int| ss[i]@)
}

/// Decodes an optional text field: absent or an explicit null reads as
/// unset, a string reads as its text, and any other value is a shape error.
pub open spec fn dec_opt_text_field(o: Option<SpecValue>) -> Option<Option<Seq<char>>> {
    match o {
        None => Some(None),
        Some(SpecValue::Null) => Some(None),
        Some(SpecValue::Text(s)) => Some(Some(s)),
        Some(_) => None,
    }
}

/// Encodes an optional text field; an unset field is left out entirely.
pub open spec fn enc_opt_text_field(x: Option<Seq<char>>) -> Option<SpecValue> {
    match x {
        Some(s) => Some(SpecValue::Text(s)),
        None => None,
    }
}

/// Decodes an optional entity field: absent or an explicit null reads as
/// unset; otherwise the value must decode as a `T`.
pub open spec fn dec_opt_codec_field<T: Codec>(o: Option<SpecValue>) -> Option<Option<T::V>> {
    match o {
        None => Some(None),
        Some(SpecValue::Null) => Some(None),
        Some(v) => match T::decode_spec(v) {
            Some(m) => Some(Some(m)),
            None => None,
        },
    }
}

/// Encodes an optional entity field; an unset field is left out entirely.
pub open spec fn enc_opt_codec_field<T: Codec>(x: Option<T::V>) -> Option<SpecValue> {
    match x {
        Some(m) => Some(T::encode_spec(m)),
        None => None,
    }
}

/// Decodes a string list.
pub open spec fn dec_str_items(items: Seq<SpecValue>) -> Option<Seq<Seq<char>>>
    decreases items.len(),
{
    if items.len() == 0 {
        Some(Seq::empty())
    } else {
        match items[0] {
            SpecValue::Text(s) => match dec_str_items(items.drop_first()) {
                Some(rest) => Some(seq![s] + rest),
                None => None,
            },
            _ => None,
        }
    }
}

/// Decodes an array of strings.
pub open spec fn dec_str_arr(v: SpecValue) -> Option<Seq<Seq<char>>> {
    match v {
        SpecValue::Arr(items) => dec_str_items(items),
        _ => None,
    }
}

/// Encodes a string list as an array.
pub open spec fn enc_str_arr(ss: Seq<Seq<char>>) -> SpecValue {
    SpecValue::Arr(Seq::new(ss.len(), |i: int| SpecValue::Text(ss[i])))
}

/// Decodes a string-list field that defaults to empty when absent.
pub open spec fn dec_str_arr_field(o: Option<SpecValue>) -> Option<Seq<Seq<char>>> {
    match o {
        None => Some(Seq::empty()),
        Some(v) => dec_str_arr(v),
    }
}

/// Encodes a string-list field; an empty list is left out entirely.
pub open spec fn enc_str_arr_field(ss: Seq<Seq<char>>) -> Option<SpecValue> {
    if ss.len() == 0 {
        None
    } else {
        Some(enc_str_arr(ss))
    }
}

/// Decodes a named-entity-map field that defaults to empty when absent.
pub open spec fn dec_map_field<T: Codec>(o: Option<SpecValue>) -> Option<
    Seq<(Seq<char>, T::V)>,
> {
    match o {
        None => Some(Seq::empty()),
        Some(SpecValue::Obj(fs)) => dec_codec_map::<T>(fs),
        Some(_) => None,
    }
}

/// Encodes a named-entity-map field; an empty map is left out entirely.
pub open spec fn enc_map_field<T: Codec>(m: Seq<(Seq<char>, T::V)>) -> Option<SpecValue> {
    if m.len() == 0 {
        None
    } else {
        Some(SpecValue::Obj(enc_codec_map::<T>(m)))
    }
}

/// Decodes an entity-list field that defaults to empty when absent.
pub open spec fn dec_arr_field<T: Codec>(o: Option<SpecValue>) -> Option<Seq<T::V>> {
    match o {
        None => Some(Seq::empty()),
        Some(v) => dec_codec_arr::<T>(v),
    }
}

/// Encodes an entity-list field; an empty list is left out entirely.
pub open spec fn enc_arr_field<T: Codec>(m: Seq<T::V>) -> Option<SpecValue> {
    if m.len() == 0 {
        None
    } else {
        Some(enc_codec_arr::<T>(m))
    }
}

/// Decodes an optional entity-list field: absent or null reads as unset.
pub open spec fn dec_opt_arr_field<T: Codec>(o: Option<SpecValue>) -> Option<
    Option<Seq<T::V>>,
> {
    match o {
        None => Some(None),
        Some(SpecValue::Null) => Some(None),
        Some(v) => match dec_codec_arr::<T>(v) {
            Some(s) => Some(Some(s)),
            None => None,
        },
    }
}

/// Encodes an optional entity-list field; an unset field is left out.
pub open spec fn enc_opt_arr_field<T: Codec>(x: Option<Seq<T::V>>) -> Option<SpecValue> {
    match x {
        Some(s) => Some(enc_codec_arr::<T>(s)),
        None => None,
    }
}

/// Law: a string list encoded as an array decodes back to the same list.
pub proof fn lemma_str_arr_round_trip(ss: Seq<Seq<char>>)
    ensures
        dec_str_arr(enc_str_arr(ss)) == Some(ss),
    decreases ss.len(),
{
    let items = Seq::new(ss.len(), |i: int| SpecValue::Text(ss[i]));
    if ss.len() == 0 {
        assert(Seq::<Seq<char>>::empty() =~= ss);
    } else {
        lemma_str_arr_round_trip(ss.drop_first());
        assert(items.drop_first() =~= Seq::new(
            ss.drop_first().len(),
            |i: int| SpecValue::Text(ss.drop_first()[i]),
        ));
        assert(seq![ss[0]] + ss.drop_first() =~= ss);
    }
}

/// Decodes an optional text field.
pub fn decode_opt_text_field(o: Option<&Value>) -> (r: Option<Option<String>>)
    ensures
        match r {
            Some(x) => dec_opt_text_field(osv(o)) == Some(opt_str_view(x)),
            None => dec_opt_text_field(osv(o)) is None,
        },
{
    broadcast use crate::value::lemma_view_variant;

    match o {
        None => Some(None),
        Some(Value::Null) => Some(None),
        Some(Value::Text(s)) => Some(Some(s.clone())),
        Some(_) => None,
    }
}

/// Decodes an optional entity field.
pub fn decode_opt_codec_field<T: Codec>(o: Option<&Value>) -> (r: Option<Option<T>>)
    ensures
        match r {
            Some(x) => dec_opt_codec_field::<T>(osv(o)) == Some(opt_view(x)),
            None => dec_opt_codec_field::<T>(osv(o)) is None,
        },
{
    broadcast use crate::value::lemma_view_variant;

    match o {
        None => Some(None),
        Some(Value::Null) => Some(None),
        Some(v) => match T::decode(v) {
            Some(t) => Some(Some(t)),
            None => None,
        },
    }
}

/// Decodes an array of strings.
pub fn decode_str_arr(v: &Value) -> (r: Option<Vec<String>>)
    ensures
        match r {
            Some(ss) => dec_str_arr(v@) == Some(strs_view(ss@)),
            None => dec_str_arr(v@) is None,
        },
{
    broadcast use crate::value::lemma_view_variant;

    let items = match v {
        Value::Arr(items) => items,
        _ => {
            return None;
        },
    };
    proof {
        crate::value::lemma_arr_view(*items);
    }
    let ghost whole = crate::value::items_view(items@);
    let mut out: Vec<String> = Vec::new();
    let mut i: usize = 0;
    proof {
        assert(whole.subrange(0, whole.len() as int) =~= whole);
        match dec_str_items(whole) {
            Some(rest) => {
                assert(strs_view(out@) + rest =~= rest);
            },
            None => {
            },
        }
    }
    while i < items.len()
        invariant
            i <= items.len(),
            v@ == SpecValue::Arr(whole),
            whole == crate::value::items_view(items@),
            whole.len() == items@.len(),
            strs_view(out@).len() == i as nat,
            dec_str_items(whole) == match dec_str_items(
                whole.subrange(i as int, whole.len() as int),
            ) {
                Some(rest) => Some(strs_view(out@) + rest),
                None => None::<Seq<Seq<char>>>,
            },
        decreases items.len() - i,
    {
        let ghost rem = whole.subrange(i as int, whole.len() as int);
        proof {
            assert(rem[0] == whole[i as int]);
            assert(rem.drop_first() =~= whole.subrange(i as int + 1, whole.len() as int));
        }
        match &items[i] {
            Value::Text(s) => {
                let ghost pre = strs_view(out@);
                out.push(s.clone());
                proof {
                    assert(strs_view(out@) =~= pre.push(s@));
                    match dec_str_items(whole.subrange(i as int + 1, whole.len() as int)) {
                        Some(r2) => {
                            assert(pre + (seq![s@] + r2) =~= pre.push(s@) + r2);
                        },
                        None => {
                        },
                    }
                }
            },
            _ => {
                proof {
                    crate::value::lemma_view_variant(items@[i as int]);
                }
                return None;
            },
        }
        i = i + 1;
    }
    proof {
        assert(whole.subrange(i as int, whole.len() as int).len() == 0);
        match dec_str_items(whole) {
            Some(rest) => {
                assert(strs_view(out@) + Seq::<Seq<char>>::empty() =~= strs_view(out@));
            },
            None => {
            },
        }
    }
    Some(out)
}

/// Encodes a string list as an array value.
pub fn encode_str_arr(ss: &Vec<String>) -> (r: Value)
    ensures
        r@ == enc_str_arr(strs_view(ss@)),
{
    let mut out: Vec<Value> = Vec::new();
    let mut i: usize = 0;
    while i < ss.len()
        invariant
            i <= ss.len(),
            out@.len() == i as nat,
            forall|j: int| 0 <= j < i ==> out@[j]@ == SpecValue::Text(ss@[j]@),
        decreases ss.len() - i,
    {
        let v = Value::Text(ss[i].clone());
        out.push(v);
        i = i + 1;
    }
    proof {
        crate::value::lemma_arr_view(out);
        assert(crate::value::items_view(out@) =~= Seq::new(
            strs_view(ss@).len(),
            |i: int| SpecValue::Text(strs_view(ss@)[i]),
        ));
    }
    Value::Arr(out)
}

/// The model of an optional owned value.
pub open spec fn opt_value_view(v: Option<Value>) -> Option<SpecValue> {
    match v {
        Some(x) => Some(x@),
        None => None,
    }
}

/// Pushes an optional field: present values are appended under the given
/// name, absent ones leave the list unchanged.
pub fn push_opt_field(fields: &mut Vec<(String, Value)>, name: &str, v: Option<Value>)
    ensures
        crate::value::fields_view(final (fields)@) == crate::value::fields_view(old(fields)@)
            + crate::fields::opt_entry(name@, opt_value_view(v)),
{
    let ghost pre = crate::value::fields_view(fields@);
    match v {
        Some(x) => {
            let ghost xv = x@;
            fields.push((name.to_owned(), x));
            proof {
                assert(crate::value::fields_view(fields@) =~= pre + crate::fields::opt_entry(
                    name@,
                    Some(xv),
                ));
            }
        },
        None => {
            proof {
                assert(crate::value::fields_view(fields@) =~= pre + crate::fields::opt_entry(
                    name@,
                    None::<SpecValue>,
                ));
            }
        },
    }
}

/// Law: when every value a `T` decodes from yields a well-formed model,
/// every entry of a decoded entity list is well formed.
pub proof fn lemma_dec_codec_arr_wf<T: Codec>(items: Seq<SpecValue>)
    requires
        dec_codec_items::<T>(items) is Some,
        forall|v: SpecValue| (#[trigger] T::decode_spec(v)) is Some ==> T::wf(
            T::decode_spec(v)->Some_0,
        ),
    ensures
        forall|i: int|
            0 <= i < dec_codec_items::<T>(items)->Some_0.len() ==> T::wf(
                #[trigger] dec_codec_items::<T>(items)->Some_0[i],
            ),
    decreases items.len(),
{
    if items.len() > 0 {
        lemma_dec_codec_arr_wf::<T>(items.drop_first());
        let m = dec_codec_items::<T>(items)->Some_0;
        let rest = dec_codec_items::<T>(items.drop_first())->Some_0;
        assert forall|i: int| 0 <= i < m.len() implies T::wf(#[trigger] m[i]) by {
            if i == 0 {
                assert(T::decode_spec(items[0]) is Some);
            } else {
                assert(m[i] == rest[i - 1]);
            }
        }
    }
}

/// Law: when every value a `T` decodes from yields a well-formed model,
/// every value of a decoded named entity list is well formed.
pub proof fn lemma_dec_codec_map_wf<T: Codec>(fs: SpecFields)
    requires
        dec_codec_map::<T>(fs) is Some,
        forall|v: SpecValue| (#[trigger] T::decode_spec(v)) is Some ==> T::wf(
            T::decode_spec(v)->Some_0,
        ),
    ensures
        forall|i: int|
            0 <= i < dec_codec_map::<T>(fs)->Some_0.len() ==> T::wf(
                #[trigger] dec_codec_map::<T>(fs)->Some_0[i].1,
            ),
    decreases fs.len(),
{
    if fs.len() > 0 {
        lemma_dec_codec_map_wf::<T>(fs.drop_first());
        let m = dec_codec_map::<T>(fs)->Some_0;
        let rest = dec_codec_map::<T>(fs.drop_first())->Some_0;
        assert forall|i: int| 0 <= i < m.len() implies T::wf(#[trigger] m[i].1) by {
            if i == 0 {
                assert(T::decode_spec(fs[0].1) is Some);
            } else {
                assert(m[i] == rest[i - 1]);
            }
        }
    }
}

/// Law: when every non-null value a `T` decodes from yields a well-formed
/// model that does not encode to null, every value of a decoded nullable
/// named entity list is fit for an optional field.
pub proof fn lemma_dec_nullable_codec_map_wf<T: Codec>(fs: SpecFields)
    requires
        dec_nullable_codec_map::<T>(fs) is Some,
        forall|v: SpecValue|
            v != SpecValue::Null && (#[trigger] T::decode_spec(v)) is Some ==> T::wf(
                T::decode_spec(v)->Some_0,
            ) && T::encode_spec(T::decode_spec(v)->Some_0) != SpecValue::Null,
    ensures
        forall|i: int|
            0 <= i < dec_nullable_codec_map::<T>(fs)->Some_0.len() ==> opt_codec_wf::<T>(
                #[trigger] dec_nullable_codec_map::<T>(fs)->Some_0[i].1,
            ),
    decreases fs.len(),
{
    if fs.len() > 0 {
        lemma_dec_nullable_codec_map_wf::<T>(fs.drop_first());
        let m = dec_nullable_codec_map::<T>(fs)->Some_0;
        let rest = dec_nullable_codec_map::<T>(fs.drop_first())->Some_0;
        assert forall|i: int| 0 <= i < m.len() implies opt_codec_wf::<T>(#[trigger] m[i].1) by {
            if i == 0 {
                if fs[0].1 != SpecValue::Null {
                    assert(T::decode_spec(fs[0].1) is Some);
                }
            } else {
                assert(m[i] == rest[i - 1]);
            }
        }
    }
}

} // verus!
