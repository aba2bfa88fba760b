//! A field that is either an inline entity or a `$ref` pointer to another
//! place in the same document.
//!
//! Shape discrimination, in this trial order: an object holding exactly the
//! one key `$ref` with a string value is a reference; any other value is
//! decoded as the inline entity. Resolving the pointer is deliberately left
//! to the consumer: the model only carries the pointer string.
use vstd::prelude::*;

use crate::codec::Codec;
use crate::value::{fields_view, lemma_obj_view, SpecValue, Value};
use crate::value::str_eq;

verus! {

/// An inline value of type `T`, or a pointer to another document location.
pub enum ReferenceOr<T> {
    /// A pointer of the form `#/path/to/target`, held as written.
    Reference { reference: String },
    /// An inline value.
    Item(T),
}

/// The model of a [`ReferenceOr`].
pub enum SpecRefOr<M> {
    Reference(Seq<char>),
    Item(M),
}

impl<T: View> View for ReferenceOr<T> {
    type V = SpecRefOr<T::V>;

    open spec fn view(&self) -> SpecRefOr<T::V> {
        match self {
            ReferenceOr::Reference { reference } => SpecRefOr::Reference(reference@),
            ReferenceOr::Item(t) => SpecRefOr::Item(t@),
        }
    }
}

/// The reference object `{"$ref": ptr}`.
pub open spec fn spec_ref_obj(ptr: Seq<char>) -> SpecValue {
    SpecValue::Obj(seq![("$ref"@, SpecValue::Text(ptr))])
}

/// Whether a value is an object holding exactly the one key `$ref` with a
/// string value.
pub open spec fn ref_shaped(v: SpecValue) -> bool {
    &&& v matches SpecValue::Obj(fs)
    &&& fs.len() == 1
    &&& fs[0].0 == "$ref"@
    &&& fs[0].1 is Text
}

/// The pointer string of a reference-shaped value.
pub open spec fn ref_ptr(v: SpecValue) -> Seq<char>
    recommends
        ref_shaped(v),
{
    v->Obj_0[0].1->Text_0
}

/// Extracts the pointer when the value is reference shaped.
pub fn as_ref_ptr<'a>(v: &'a Value) -> (r: Option<&'a String>)
    ensures
        match r {
            Some(p) => ref_shaped(v@) && ref_ptr(v@) == p@,
            None => !ref_shaped(v@),
        },
{
    match v {
        Value::Obj(fields) => {
            proof {
                lemma_obj_view(*fields);
            }
            if fields.len() == 1 {
                if str_eq(fields[0].0.as_str(), "$ref") {
                    match &fields[0].1 {
                        Value::Text(p) => {
                            proof {
                                assert(fields_view(fields@)[0] == (fields@[0].0@, fields@[0].1@));
                            }
                            Some(p)
                        },
                        _ => {
                            proof {
                                assert(fields_view(fields@)[0].1 == fields@[0].1@);
                                assert(!(fields@[0].1@ is Text));
                            }
                            None
                        },
                    }
                } else {
                    proof {
                        assert(fields_view(fields@)[0].0 == fields@[0].0@);
                    }
                    None
                }
            } else {
                None
            }
        },
        _ => {
            None
        },
    }
}

impl<T: Codec> Codec for ReferenceOr<T> {
    open spec fn wf(m: SpecRefOr<T::V>) -> bool {
        match m {
            SpecRefOr::Reference(_) => true,
            SpecRefOr::Item(tm) => T::wf(tm) && !ref_shaped(T::encode_spec(tm)),
        }
    }

    open spec fn decode_spec(v: SpecValue) -> Option<SpecRefOr<T::V>> {
        if ref_shaped(v) {
            Some(SpecRefOr::Reference(ref_ptr(v)))
        } else {
            match T::decode_spec(v) {
                Some(tm) => Some(SpecRefOr::Item(tm)),
                None => None,
            }
        }
    }

    open spec fn encode_spec(m: SpecRefOr<T::V>) -> SpecValue {
        match m {
            SpecRefOr::Reference(p) => spec_ref_obj(p),
            SpecRefOr::Item(tm) => T::encode_spec(tm),
        }
    }

    proof fn law_round_trip(m: SpecRefOr<T::V>) {
        match m {
            SpecRefOr::Reference(p) => {
                assert(ref_shaped(spec_ref_obj(p)));
                assert(ref_ptr(spec_ref_obj(p)) == p);
            },
            SpecRefOr::Item(tm) => {
                T::law_round_trip(tm);
            },
        }
    }

    fn decode(v: &Value) -> (r: Option<Self>) {
        match as_ref_ptr(v) {
            Some(p) => Some(ReferenceOr::Reference { reference: p.clone() }),
            None => {
                match T::decode(v) {
                    Some(t) => Some(ReferenceOr::Item(t)),
                    None => None,
                }
            },
        }
    }

    fn encode(&self) -> (r: Value) {
        match self {
            ReferenceOr::Reference { reference } => {
                let mut fields: Vec<(String, Value)> = Vec::new();
                fields.push(("$ref".to_owned(), Value::Text(reference.clone())));
                proof {
                    lemma_obj_view(fields);
                    assert(fields_view(fields@) =~= seq![
                        ("$ref"@, SpecValue::Text(reference@)),
                    ]);
                }
                Value::Obj(fields)
            },
            ReferenceOr::Item(t) => t.encode(),
        }
    }
}

impl<T: View> ReferenceOr<T> {
    /// The inline value, when the inline variant is active.
    pub fn as_item(&self) -> (r: Option<&T>)
        ensures
            match r {
                Some(t) => exists|m: T::V| self@ == SpecRefOr::Item(m) && t@ == m,
                None => self@ is Reference,
            },
    {
        match self {
            ReferenceOr::Item(t) => Some(t),
            ReferenceOr::Reference { .. } => None,
        }
    }

    /// The pointer string, when the reference variant is active.
    pub fn as_reference(&self) -> (r: Option<&String>)
        ensures
            match r {
                Some(p) => self@ matches SpecRefOr::Reference(q) && q == p@,
                None => !(self@ is Reference),
            },
    {
        match self {
            ReferenceOr::Reference { reference } => Some(reference),
            ReferenceOr::Item(_) => None,
        }
    }
}

/// Law: the reference object `{"$ref": p}` decodes to the reference variant
/// carrying `p`, and that variant encodes back to exactly `{"$ref": p}` with
/// no extra keys.
pub proof fn lemma_reference_round_trip<T: Codec>(p: Seq<char>)
    ensures
        <ReferenceOr<T> as Codec>::decode_spec(spec_ref_obj(p)) == Some(
            SpecRefOr::<T::V>::Reference(p),
        ),
        <ReferenceOr<T> as Codec>::encode_spec(SpecRefOr::<T::V>::Reference(p)) == spec_ref_obj(p),
{
    assert(ref_shaped(spec_ref_obj(p)));
    assert(ref_ptr(spec_ref_obj(p)) == p);
}

/// Law: a value that is not reference shaped and decodes as an inline `T`
/// decodes to the inline variant, and the inline variant encodes back to
/// `T`'s own encoding — the original value itself whenever `T` re-encodes it
/// unchanged.
pub proof fn lemma_inline_round_trip<T: Codec>(v: SpecValue, m: T::V)
    requires
        !ref_shaped(v),
        T::decode_spec(v) == Some(m),
    ensures
        <ReferenceOr<T> as Codec>::decode_spec(v) == Some(SpecRefOr::<T::V>::Item(m)),
        <ReferenceOr<T> as Codec>::encode_spec(SpecRefOr::<T::V>::Item(m)) == T::encode_spec(m),
{
}

/// Law: decoding establishes well-formedness whenever the inline entity
/// decodes to a well-formed model that re-encodes to the decoded value
/// itself, as every open entity does.
pub proof fn lemma_ref_or_decode_wf<T: Codec>(v: SpecValue)
    requires
        <ReferenceOr<T> as Codec>::decode_spec(v) is Some,
        T::decode_spec(v) is Some ==> T::wf(T::decode_spec(v)->Some_0) && T::encode_spec(
            T::decode_spec(v)->Some_0,
        ) == v,
    ensures
        <ReferenceOr<T> as Codec>::wf(<ReferenceOr<T> as Codec>::decode_spec(v)->Some_0),
{
}

/// Law: a decoded value re-encodes to itself whenever the inline entity
/// re-encodes exactly, as every open entity does: the wrapper adds no loss
/// of its own.
pub proof fn lemma_ref_or_exact_reencode<T: Codec>(v: SpecValue)
    requires
        <ReferenceOr<T> as Codec>::decode_spec(v) is Some,
        T::decode_spec(v) is Some ==> T::encode_spec(T::decode_spec(v)->Some_0) == v,
    ensures
        <ReferenceOr<T> as Codec>::encode_spec(<ReferenceOr<T> as Codec>::decode_spec(v)->Some_0)
            == v,
{
    if ref_shaped(v) {
        let p = ref_ptr(v);
        assert(v->Obj_0 =~= seq![("$ref"@, SpecValue::Text(p))]);
    }
}

} // verus!
