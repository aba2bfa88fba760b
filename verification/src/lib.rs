//! A typed data model for AsyncAPI documents.
//!
//! The model works on a decoded structured-value tree ([`value::Value`]):
//! every entity can be decoded from and re-encoded to such a tree, keeping
//! unknown extension fields and symbolic `$ref` pointers intact. Reading and
//! writing the textual document is left to an outside serializer; resolving
//! a reference pointer is left to the consumer.
use vstd::prelude::*;

pub mod channel;
pub mod codec;
pub mod entities;
pub mod fields;
pub mod operations;
pub mod reference;
pub mod value;
pub mod variant_or;

pub use channel::Channel;
pub use codec::Codec;
pub use entities::{
    ChannelBinding, ExternalDocumentation, Message, OperationBinding, OperationTrait, Parameter,
    Schema, Tag,
};
pub use operations::{ActionType, Operation, OperationChannelType, OperationMessageType};
pub use reference::ReferenceOr;
pub use value::Value;
pub use variant_or::{VariantOrUnknown, VariantOrUnknownOrEmpty};

verus! {

/// Returns whether a boolean is false; mirrors the sense of a field that is
/// serialized only when set.
pub fn is_false(v: &bool) -> (r: bool)
    ensures
        r == !*v,
{
    !(*v)
}

} // verus!
