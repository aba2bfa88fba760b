//! Fallback-capture wrappers: a field that is either a structurally valid `T`
//! or any other well-formed document value, kept verbatim.
//!
//! Decoding first tries `T`; on failure it never fails the parse but captures
//! the raw value (or, for the three-state wrapper, recognizes an explicit
//! null as a distinct empty state first). Encoding is the exact inverse, so a
//! parse followed by a serialize is the identity even for documents using
//! shapes newer than `T` models. An absent field is not represented here: the
//! containing entity models it with an `Option` around the wrapper.
use vstd::prelude::*;

use crate::codec::Codec;
use crate::value::{SpecValue, Value};

verus! {

/// A structurally valid `T`, or any other value kept verbatim.
pub enum VariantOrUnknown<T> {
    /// The value matched `T`'s shape.
    Item(T),
    /// The value did not match `T`; it is kept as read, with no data loss.
    Unknown(Value),
}

/// The model of a [`VariantOrUnknown`].
pub enum SpecVariantOr<M> {
    Item(M),
    Unknown(SpecValue),
}

/// A structurally valid `T`, an explicit empty value, or any other value
/// kept verbatim.
pub enum VariantOrUnknownOrEmpty<T> {
    /// The value matched `T`'s shape.
    Item(T),
    /// The value did not match `T`; it is kept as read, with no data loss.
    Unknown(Value),
    /// The field was present but explicitly empty (null).
    Empty,
}

/// The model of a [`VariantOrUnknownOrEmpty`].
pub enum SpecVariantOrEmpty<M> {
    Item(M),
    Unknown(SpecValue),
    Empty,
}

impl<T: View> View for VariantOrUnknown<T> {
    type V = SpecVariantOr<T::V>;

    open spec fn view(&self) -> SpecVariantOr<T::V> {
        match self {
            VariantOrUnknown::Item(t) => SpecVariantOr::Item(t@),
            VariantOrUnknown::Unknown(v) => SpecVariantOr::Unknown(v@),
        }
    }
}

impl<T: View> View for VariantOrUnknownOrEmpty<T> {
    type V = SpecVariantOrEmpty<T::V>;

    open spec fn view(&self) -> SpecVariantOrEmpty<T::V> {
        match self {
            VariantOrUnknownOrEmpty::Item(t) => SpecVariantOrEmpty::Item(t@),
            VariantOrUnknownOrEmpty::Unknown(v) => SpecVariantOrEmpty::Unknown(v@),
            VariantOrUnknownOrEmpty::Empty => SpecVariantOrEmpty::Empty,
        }
    }
}

impl<T: Codec> Codec for VariantOrUnknown<T> {
    open spec fn wf(m: SpecVariantOr<T::V>) -> bool {
        match m {
            SpecVariantOr::Item(tm) => T::wf(tm),
            SpecVariantOr::Unknown(v) => T::decode_spec(v) is None,
        }
    }

    open spec fn decode_spec(v: SpecValue) -> Option<SpecVariantOr<T::V>> {
        match T::decode_spec(v) {
            Some(tm) => Some(SpecVariantOr::Item(tm)),
            None => Some(SpecVariantOr::Unknown(v)),
        }
    }

    open spec fn encode_spec(m: SpecVariantOr<T::V>) -> SpecValue {
        match m {
            SpecVariantOr::Item(tm) => T::encode_spec(tm),
            SpecVariantOr::Unknown(v) => v,
        }
    }

    proof fn law_round_trip(m: SpecVariantOr<T::V>) {
        match m {
            SpecVariantOr::Item(tm) => {
                T::law_round_trip(tm);
            },
            SpecVariantOr::Unknown(_) => {
            },
        }
    }

    fn decode(v: &Value) -> (r: Option<Self>) {
        match T::decode(v) {
            Some(t) => Some(VariantOrUnknown::Item(t)),
            None => Some(VariantOrUnknown::Unknown(v.deep_copy())),
        }
    }

    fn encode(&self) -> (r: Value) {
        match self {
            VariantOrUnknown::Item(t) => t.encode(),
            VariantOrUnknown::Unknown(v) => v.deep_copy(),
        }
    }
}

impl<T: Codec> Codec for VariantOrUnknownOrEmpty<T> {
    open spec fn wf(m: SpecVariantOrEmpty<T::V>) -> bool {
        match m {
            SpecVariantOrEmpty::Item(tm) => T::wf(tm),
            SpecVariantOrEmpty::Unknown(v) => T::decode_spec(v) is None && v != SpecValue::Null,
            SpecVariantOrEmpty::Empty => T::decode_spec(SpecValue::Null) is None,
        }
    }

    open spec fn decode_spec(v: SpecValue) -> Option<SpecVariantOrEmpty<T::V>> {
        match T::decode_spec(v) {
            Some(tm) => Some(SpecVariantOrEmpty::Item(tm)),
            None => if v == SpecValue::Null {
                Some(SpecVariantOrEmpty::Empty)
            } else {
                Some(SpecVariantOrEmpty::Unknown(v))
            },
        }
    }

    open spec fn encode_spec(m: SpecVariantOrEmpty<T::V>) -> SpecValue {
        match m {
            SpecVariantOrEmpty::Item(tm) => T::encode_spec(tm),
            SpecVariantOrEmpty::Unknown(v) => v,
            SpecVariantOrEmpty::Empty => SpecValue::Null,
        }
    }

    proof fn law_round_trip(m: SpecVariantOrEmpty<T::V>) {
        match m {
            SpecVariantOrEmpty::Item(tm) => {
                T::law_round_trip(tm);
            },
            SpecVariantOrEmpty::Unknown(_) => {
            },
            SpecVariantOrEmpty::Empty => {
            },
        }
    }

    fn decode(v: &Value) -> (r: Option<Self>) {
        match T::decode(v) {
            Some(t) => Some(VariantOrUnknownOrEmpty::Item(t)),
            None => {
                if let Value::Null = v {
                    Some(VariantOrUnknownOrEmpty::Empty)
                } else {
                    proof {
                        assert(v@ != SpecValue::Null);
                    }
                    Some(VariantOrUnknownOrEmpty::Unknown(v.deep_copy()))
                }
            },
        }
    }

    fn encode(&self) -> (r: Value) {
        match self {
            VariantOrUnknownOrEmpty::Item(t) => t.encode(),
            VariantOrUnknownOrEmpty::Unknown(v) => v.deep_copy(),
            VariantOrUnknownOrEmpty::Empty => Value::Null,
        }
    }
}

/// Law: decoding a fallback-capture wrapper never fails.
pub proof fn lemma_variant_decode_total<T: Codec>(v: SpecValue)
    ensures
        <VariantOrUnknown<T> as Codec>::decode_spec(v) is Some,
        <VariantOrUnknownOrEmpty<T> as Codec>::decode_spec(v) is Some,
{
}

/// Law: a value that does not match `T`'s shape decodes to the unknown
/// variant holding the value itself, and re-encoding reproduces that value
/// exactly, keys and all.
pub proof fn lemma_unknown_capture<T: Codec>(v: SpecValue)
    requires
        T::decode_spec(v) is None,
    ensures
        <VariantOrUnknown<T> as Codec>::decode_spec(v) == Some(
            SpecVariantOr::<T::V>::Unknown(v),
        ),
        <VariantOrUnknown<T> as Codec>::encode_spec(SpecVariantOr::<T::V>::Unknown(v)) == v,
{
}

/// Law: for the three-state wrapper, an explicit null decodes to the empty
/// state and the empty state encodes back to null; no other well-formed
/// state encodes to null, so the three states keep their own shapes through
/// a round trip. An absent field never reaches this wrapper at all: the
/// containing entity models it as `None` around the wrapper.
pub proof fn lemma_empty_state_distinct<T: Codec>(m: SpecVariantOrEmpty<T::V>)
    requires
        T::decode_spec(SpecValue::Null) is None,
        <VariantOrUnknownOrEmpty<T> as Codec>::wf(m),
        !(m is Empty),
    ensures
        <VariantOrUnknownOrEmpty<T> as Codec>::decode_spec(SpecValue::Null) == Some(
            SpecVariantOrEmpty::<T::V>::Empty,
        ),
        <VariantOrUnknownOrEmpty<T> as Codec>::encode_spec(
            SpecVariantOrEmpty::<T::V>::Empty,
        ) == SpecValue::Null,
        <VariantOrUnknownOrEmpty<T> as Codec>::encode_spec(m) != SpecValue::Null,
{
    match m {
        SpecVariantOrEmpty::Item(tm) => {
            if T::encode_spec(tm) == SpecValue::Null {
                T::law_round_trip(tm);
            }
        },
        SpecVariantOrEmpty::Unknown(_) => {
        },
        SpecVariantOrEmpty::Empty => {
        },
    }
}

} // verus!
