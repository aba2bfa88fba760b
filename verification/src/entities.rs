//! Open schema entities: spec objects whose field surface is not modeled
//! field by field. Each keeps every document field verbatim, in order, so a
//! decode followed by an encode reproduces the object exactly.
use vstd::prelude::*;

use crate::codec::Codec;
use crate::value::{fields_view, lemma_obj_view, SpecFields, SpecValue, Value};

verus! {

/// The shape every open entity decodes from: any object, kept verbatim.
pub open spec fn open_decode_spec(v: SpecValue) -> Option<SpecFields> {
    match v {
        SpecValue::Obj(fs) => Some(fs),
        _ => None,
    }
}

/// An open entity encodes back to the object it was decoded from.
pub open spec fn open_encode_spec(fs: SpecFields) -> SpecValue {
    SpecValue::Obj(fs)
}

/// Copies a field list; the copy has the same model.
pub fn copy_fields(fields: &Vec<(String, Value)>) -> (r: Vec<(String, Value)>)
    ensures
        fields_view(r@) == fields_view(fields@),
{
    broadcast use vstd::std_specs::vec::group_vec_axioms;

    let mut out: Vec<(String, Value)> = Vec::new();
    let mut i: usize = 0;
    while i < fields.len()
        invariant
            i <= fields.len(),
            out@.len() == i as nat,
            forall|j: int|
                0 <= j < i ==> out@[j].0@ == fields@[j].0@ && out@[j].1@ == fields@[j].1@,
        decreases fields.len() - i,
    {
        let k = fields[i].0.clone();
        let v = fields[i].1.deep_copy();
        out.push((k, v));
        i = i + 1;
    }
    proof {
        assert(fields_view(out@) =~= fields_view(fields@));
    }
    out
}

/// Decodes an open entity: any object, whose fields are kept verbatim.
pub fn open_decode(v: &Value) -> (r: Option<Vec<(String, Value)>>)
    ensures
        match r {
            Some(fs) => open_decode_spec(v@) == Some(fields_view(fs@)),
            None => open_decode_spec(v@) is None,
        },
{
    match v {
        Value::Obj(fields) => {
            proof {
                lemma_obj_view(*fields);
            }
            Some(copy_fields(fields))
        },
        _ => None,
    }
}

/// Encodes an open entity back to its object.
pub fn open_encode(fields: &Vec<(String, Value)>) -> (r: Value)
    ensures
        r@ == open_encode_spec(fields_view(fields@)),
{
    let out = copy_fields(fields);
    proof {
        lemma_obj_view(out);
    }
    Value::Obj(out)
}

/// A message: what an operation sends or receives. Kept as an open object.
pub struct Message {
    pub fields: Vec<(String, Value)>,
}

/// A parameter of a channel address expression. Kept as an open object.
pub struct Parameter {
    pub fields: Vec<(String, Value)>,
}

/// A schema describing a payload. Kept as an open object.
pub struct Schema {
    pub fields: Vec<(String, Value)>,
}

/// Protocol-specific channel definitions. Kept as an open object.
pub struct ChannelBinding {
    pub fields: Vec<(String, Value)>,
}

/// Protocol-specific operation definitions. Kept as an open object.
pub struct OperationBinding {
    pub fields: Vec<(String, Value)>,
}

/// A reusable trait to merge into an operation. Kept as an open object.
pub struct OperationTrait {
    pub fields: Vec<(String, Value)>,
}

impl View for Message {
    type V = SpecFields;

    open spec fn view(&self) -> SpecFields {
        fields_view(self.fields@)
    }
}

impl Codec for Message {
    open spec fn wf(m: SpecFields) -> bool {
        true
    }

    open spec fn decode_spec(v: SpecValue) -> Option<SpecFields> {
        open_decode_spec(v)
    }

    open spec fn encode_spec(m: SpecFields) -> SpecValue {
        open_encode_spec(m)
    }

    proof fn law_round_trip(m: SpecFields) {
    }

    fn decode(v: &Value) -> (r: Option<Self>) {
        match open_decode(v) {
            Some(fields) => Some(Message { fields }),
            None => None,
        }
    }

    fn encode(&self) -> (r: Value) {
        open_encode(&self.fields)
    }
}

impl View for Parameter {
    type V = SpecFields;

    open spec fn view(&self) -> SpecFields {
        fields_view(self.fields@)
    }
}

impl Codec for Parameter {
    open spec fn wf(m: SpecFields) -> bool {
        true
    }

    open spec fn decode_spec(v: SpecValue) -> Option<SpecFields> {
        open_decode_spec(v)
    }

    open spec fn encode_spec(m: SpecFields) -> SpecValue {
        open_encode_spec(m)
    }

    proof fn law_round_trip(m: SpecFields) {
    }

    fn decode(v: &Value) -> (r: Option<Self>) {
        match open_decode(v) {
            Some(fields) => Some(Parameter { fields }),
            None => None,
        }
    }

    fn encode(&self) -> (r: Value) {
        open_encode(&self.fields)
    }
}

impl View for Schema {
    type V = SpecFields;

    open spec fn view(&self) -> SpecFields {
        fields_view(self.fields@)
    }
}

impl Codec for Schema {
    open spec fn wf(m: SpecFields) -> bool {
        true
    }

    open spec fn decode_spec(v: SpecValue) -> Option<SpecFields> {
        open_decode_spec(v)
    }

    open spec fn encode_spec(m: SpecFields) -> SpecValue {
        open_encode_spec(m)
    }

    proof fn law_round_trip(m: SpecFields) {
    }

    fn decode(v: &Value) -> (r: Option<Self>) {
        match open_decode(v) {
            Some(fields) => Some(Schema { fields }),
            None => None,
        }
    }

    fn encode(&self) -> (r: Value) {
        open_encode(&self.fields)
    }
}

impl View for ChannelBinding {
    type V = SpecFields;

    open spec fn view(&self) -> SpecFields {
        fields_view(self.fields@)
    }
}

impl Codec for ChannelBinding {
    open spec fn wf(m: SpecFields) -> bool {
        true
    }

    open spec fn decode_spec(v: SpecValue) -> Option<SpecFields> {
        open_decode_spec(v)
    }

    open spec fn encode_spec(m: SpecFields) -> SpecValue {
        open_encode_spec(m)
    }

    proof fn law_round_trip(m: SpecFields) {
    }

    fn decode(v: &Value) -> (r: Option<Self>) {
        match open_decode(v) {
            Some(fields) => Some(ChannelBinding { fields }),
            None => None,
        }
    }

    fn encode(&self) -> (r: Value) {
        open_encode(&self.fields)
    }
}

impl View for OperationBinding {
    type V = SpecFields;

    open spec fn view(&self) -> SpecFields {
        fields_view(self.fields@)
    }
}

impl Codec for OperationBinding {
    open spec fn wf(m: SpecFields) -> bool {
        true
    }

    open spec fn decode_spec(v: SpecValue) -> Option<SpecFields> {
        open_decode_spec(v)
    }

    open spec fn encode_spec(m: SpecFields) -> SpecValue {
        open_encode_spec(m)
    }

    proof fn law_round_trip(m: SpecFields) {
    }

    fn decode(v: &Value) -> (r: Option<Self>) {
        match open_decode(v) {
            Some(fields) => Some(OperationBinding { fields }),
            None => None,
        }
    }

    fn encode(&self) -> (r: Value) {
        open_encode(&self.fields)
    }
}

impl View for OperationTrait {
    type V = SpecFields;

    open spec fn view(&self) -> SpecFields {
        fields_view(self.fields@)
    }
}

impl Codec for OperationTrait {
    open spec fn wf(m: SpecFields) -> bool {
        true
    }

    open spec fn decode_spec(v: SpecValue) -> Option<SpecFields> {
        open_decode_spec(v)
    }

    open spec fn encode_spec(m: SpecFields) -> SpecValue {
        open_encode_spec(m)
    }

    proof fn law_round_trip(m: SpecFields) {
    }

    fn decode(v: &Value) -> (r: Option<Self>) {
        match open_decode(v) {
            Some(fields) => Some(OperationTrait { fields }),
            None => None,
        }
    }

    fn encode(&self) -> (r: Value) {
        open_encode(&self.fields)
    }
}

/// A tag for documentation grouping. Kept as an open object.
pub struct Tag {
    pub fields: Vec<(String, Value)>,
}

/// External documentation for an entity. Kept as an open object.
pub struct ExternalDocumentation {
    pub fields: Vec<(String, Value)>,
}

impl View for Tag {
    type V = SpecFields;

    open spec fn view(&self) -> SpecFields {
        fields_view(self.fields@)
    }
}

impl Codec for Tag {
    open spec fn wf(m: SpecFields) -> bool {
        true
    }

    open spec fn decode_spec(v: SpecValue) -> Option<SpecFields> {
        open_decode_spec(v)
    }

    open spec fn encode_spec(m: SpecFields) -> SpecValue {
        open_encode_spec(m)
    }

    proof fn law_round_trip(m: SpecFields) {
    }

    fn decode(v: &Value) -> (r: Option<Self>) {
        match open_decode(v) {
            Some(fields) => Some(Tag { fields }),
            None => None,
        }
    }

    fn encode(&self) -> (r: Value) {
        open_encode(&self.fields)
    }
}

impl View for ExternalDocumentation {
    type V = SpecFields;

    open spec fn view(&self) -> SpecFields {
        fields_view(self.fields@)
    }
}

impl Codec for ExternalDocumentation {
    open spec fn wf(m: SpecFields) -> bool {
        true
    }

    open spec fn decode_spec(v: SpecValue) -> Option<SpecFields> {
        open_decode_spec(v)
    }

    open spec fn encode_spec(m: SpecFields) -> SpecValue {
        open_encode_spec(m)
    }

    proof fn law_round_trip(m: SpecFields) {
    }

    fn decode(v: &Value) -> (r: Option<Self>) {
        match open_decode(v) {
            Some(fields) => Some(ExternalDocumentation { fields }),
            None => None,
        }
    }

    fn encode(&self) -> (r: Value) {
        open_encode(&self.fields)
    }
}

/// Law: an open entity re-encodes to exactly the object it was decoded
/// from: nothing is lost or reordered.
pub proof fn lemma_open_exact_reencode(v: SpecValue)
    requires
        open_decode_spec(v) is Some,
    ensures
        open_encode_spec(open_decode_spec(v)->Some_0) == v,
{
}

} // verus!
