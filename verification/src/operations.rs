//! An operation: how and why a message is sent or received, with its action,
//! optional channel and message shapes, documentation and extension fields.
use vstd::prelude::*;

use crate::codec::{
    dec_arr_field, dec_opt_arr_field, dec_opt_codec_field, dec_opt_text_field,
    enc_arr_field, enc_codec_arr, enc_opt_arr_field, enc_opt_codec_field, enc_opt_text_field,
    Codec,
};
use crate::codec::{
    decode_codec_arr, decode_opt_codec_field, decode_opt_text_field, encode_codec_arr,
    opt_value_view, push_opt_field,
};
use crate::codec::lemma_codec_arr_round_trip;
use crate::codec::{arr_view, opt_codec_wf, opt_str_view, opt_view};
use crate::entities::{ExternalDocumentation, OperationBinding, OperationTrait, Schema, Tag};
use crate::fields::{
    is_unknown_key, keys_disjoint, keys_of, lemma_lookup_concat, lemma_lookup_disjoint,
    lemma_lookup_opt_entry, lemma_unknown_concat, lemma_unknown_disjoint,
    lemma_unknown_field_preserved, lemma_unknown_opt_entry, lookup, opt_entry, restrict_unknown,
};
use crate::fields::{collect_unknown, lookup_field};
use crate::reference::{ReferenceOr, SpecRefOr};
use crate::value::{fields_view, lemma_obj_view, str_eq, SpecFields, SpecValue, Value};

verus! {

broadcast use
    vstd::std_specs::vec::group_vec_axioms,
    vstd::seq::group_seq_axioms,
    crate::value::lemma_view_variant,
    lemma_lookup_concat,
    lemma_lookup_opt_entry,
    lemma_unknown_concat,
    lemma_unknown_opt_entry,
;

/// The type of an operation: it either sends or receives a message. The
/// document holds it as the string `send` or `receive`; when absent, a
/// consumer defaults to `receive`.
#[derive(Clone, Copy, Debug, PartialEq, Eq, Structural)]
pub enum ActionType {
    Receive,
    Send,
}

impl View for ActionType {
    type V = ActionType;

    open spec fn view(&self) -> ActionType {
        *self
    }
}

impl Default for ActionType {
    /// The default action is to receive.
    fn default() -> (r: Self)
        ensures
            r == ActionType::Receive,
    {
        ActionType::Receive
    }
}

impl Codec for ActionType {
    open spec fn wf(m: ActionType) -> bool {
        true
    }

    open spec fn decode_spec(v: SpecValue) -> Option<ActionType> {
        match v {
            SpecValue::Text(s) => if s == "receive"@ {
                Some(ActionType::Receive)
            } else if s == "send"@ {
                Some(ActionType::Send)
            } else {
                None
            },
            _ => None,
        }
    }

    open spec fn encode_spec(m: ActionType) -> SpecValue {
        match m {
            ActionType::Receive => SpecValue::Text("receive"@),
            ActionType::Send => SpecValue::Text("send"@),
        }
    }

    proof fn law_round_trip(m: ActionType) {
        reveal_strlit("receive");
        reveal_strlit("send");
        assert("receive"@.len() == 7);
        assert("send"@.len() == 4);
    }

    fn decode(v: &Value) -> (r: Option<Self>) {
        match v {
            Value::Text(s) => {
                if str_eq(s.as_str(), "receive") {
                    Some(ActionType::Receive)
                } else if str_eq(s.as_str(), "send") {
                    Some(ActionType::Send)
                } else {
                    None
                }
            },
            _ => None,
        }
    }

    fn encode(&self) -> (r: Value) {
        match self {
            ActionType::Receive => Value::Text("receive".to_owned()),
            ActionType::Send => Value::Text("send".to_owned()),
        }
    }
}

/// A message shape of an operation: a structurally valid schema, or any
/// other value kept verbatim.
pub enum OperationMessageType {
    /// The value matched the schema shape.
    Schema(Schema),
    /// Any other value, kept as read.
    Any(Value),
}

/// The model of an [`OperationMessageType`].
pub enum SpecOpMessage {
    Schema(SpecFields),
    Any(SpecValue),
}

impl View for OperationMessageType {
    type V = SpecOpMessage;

    open spec fn view(&self) -> SpecOpMessage {
        match self {
            OperationMessageType::Schema(s) => SpecOpMessage::Schema(s@),
            OperationMessageType::Any(v) => SpecOpMessage::Any(v@),
        }
    }
}

impl Codec for OperationMessageType {
    open spec fn wf(m: SpecOpMessage) -> bool {
        match m {
            SpecOpMessage::Schema(_) => true,
            SpecOpMessage::Any(v) => <Schema as Codec>::decode_spec(v) is None,
        }
    }

    open spec fn decode_spec(v: SpecValue) -> Option<SpecOpMessage> {
        match <Schema as Codec>::decode_spec(v) {
            Some(s) => Some(SpecOpMessage::Schema(s)),
            None => Some(SpecOpMessage::Any(v)),
        }
    }

    open spec fn encode_spec(m: SpecOpMessage) -> SpecValue {
        match m {
            SpecOpMessage::Schema(s) => <Schema as Codec>::encode_spec(s),
            SpecOpMessage::Any(v) => v,
        }
    }

    proof fn law_round_trip(m: SpecOpMessage) {
        match m {
            SpecOpMessage::Schema(s) => {
                <Schema as Codec>::law_round_trip(s);
            },
            SpecOpMessage::Any(_) => {
            },
        }
    }

    fn decode(v: &Value) -> (r: Option<Self>) {
        match <Schema as Codec>::decode(v) {
            Some(s) => Some(OperationMessageType::Schema(s)),
            None => Some(OperationMessageType::Any(v.deep_copy())),
        }
    }

    fn encode(&self) -> (r: Value) {
        match self {
            OperationMessageType::Schema(s) => s.encode(),
            OperationMessageType::Any(v) => v.deep_copy(),
        }
    }
}

/// A channel shape of an operation: a structurally valid schema, or any
/// other value kept verbatim.
pub enum OperationChannelType {
    /// The value matched the schema shape.
    Schema(Schema),
    /// Any other value, kept as read.
    Any(Value),
}

/// The model of an [`OperationChannelType`].
pub enum SpecOpChannel {
    Schema(SpecFields),
    Any(SpecValue),
}

impl View for OperationChannelType {
    type V = SpecOpChannel;

    open spec fn view(&self) -> SpecOpChannel {
        match self {
            OperationChannelType::Schema(s) => SpecOpChannel::Schema(s@),
            OperationChannelType::Any(v) => SpecOpChannel::Any(v@),
        }
    }
}

impl Codec for OperationChannelType {
    open spec fn wf(m: SpecOpChannel) -> bool {
        match m {
            SpecOpChannel::Schema(_) => true,
            SpecOpChannel::Any(v) => <Schema as Codec>::decode_spec(v) is None,
        }
    }

    open spec fn decode_spec(v: SpecValue) -> Option<SpecOpChannel> {
        match <Schema as Codec>::decode_spec(v) {
            Some(s) => Some(SpecOpChannel::Schema(s)),
            None => Some(SpecOpChannel::Any(v)),
        }
    }

    open spec fn encode_spec(m: SpecOpChannel) -> SpecValue {
        match m {
            SpecOpChannel::Schema(s) => <Schema as Codec>::encode_spec(s),
            SpecOpChannel::Any(v) => v,
        }
    }

    proof fn law_round_trip(m: SpecOpChannel) {
        match m {
            SpecOpChannel::Schema(s) => {
                <Schema as Codec>::law_round_trip(s);
            },
            SpecOpChannel::Any(_) => {
            },
        }
    }

    fn decode(v: &Value) -> (r: Option<Self>) {
        match <Schema as Codec>::decode(v) {
            Some(s) => Some(OperationChannelType::Schema(s)),
            None => Some(OperationChannelType::Any(v.deep_copy())),
        }
    }

    fn encode(&self) -> (r: Value) {
        match self {
            OperationChannelType::Schema(s) => s.encode(),
            OperationChannelType::Any(v) => v.deep_copy(),
        }
    }
}

/// The model of an [`Operation`].
pub struct SpecOperation {
    pub action: ActionType,
    pub channel: Option<SpecOpChannel>,
    pub messages: Option<Seq<SpecOpMessage>>,
    pub operation_id: Option<Seq<char>>,
    pub summary: Option<Seq<char>>,
    pub description: Option<Seq<char>>,
    pub tags: Seq<SpecFields>,
    pub external_docs: Option<SpecFields>,
    pub bindings: Option<SpecRefOr<SpecFields>>,
    pub traits: Seq<SpecRefOr<SpecFields>>,
    pub extensions: SpecFields,
}

/// Describes a send or a receive operation.
pub struct Operation {
    /// The type of operation: `send` or `receive`. Required.
    pub action: ActionType,
    /// The channel the operation works on.
    pub channel: Option<OperationChannelType>,
    /// The message shapes that may be sent or received.
    pub messages: Option<Vec<OperationMessageType>>,
    /// Unique string used to identify the operation.
    pub operation_id: Option<String>,
    /// A short summary of what the operation is about.
    pub summary: Option<String>,
    /// A verbose explanation of the operation.
    pub description: Option<String>,
    /// Tags for documentation control.
    pub tags: Vec<Tag>,
    /// Additional external documentation.
    pub external_docs: Option<ExternalDocumentation>,
    /// Protocol-specific definitions for the operation.
    pub bindings: Option<ReferenceOr<OperationBinding>>,
    /// Traits to merge into the operation.
    pub traits: Vec<ReferenceOr<OperationTrait>>,
    /// Fields not part of the formal schema, kept verbatim and in order.
    pub extensions: Vec<(String, Value)>,
}

impl View for Operation {
    type V = SpecOperation;

    open spec fn view(&self) -> SpecOperation {
        SpecOperation {
            action: self.action,
            channel: opt_view(self.channel),
            messages: match self.messages {
                Some(ms) => Some(arr_view(ms@)),
                None => None,
            },
            operation_id: opt_str_view(self.operation_id),
            summary: opt_str_view(self.summary),
            description: opt_str_view(self.description),
            tags: arr_view(self.tags@),
            external_docs: opt_view(self.external_docs),
            bindings: opt_view(self.bindings),
            traits: arr_view(self.traits@),
            extensions: fields_view(self.extensions@),
        }
    }
}

/// The declared document keys of an operation; everything else is an
/// extension.
pub open spec fn operation_known_keys() -> Seq<Seq<char>> {
    seq![
        "action"@,
        "channel"@,
        "messages"@,
        "operationId"@,
        "summary"@,
        "description"@,
        "tags"@,
        "externalDocs"@,
        "bindings"@,
        "traits"@,
    ]
}

/// The field list an operation encodes to: declared fields in declaration
/// order, then the extension fields.
pub open spec fn operation_enc_fields(c: SpecOperation) -> SpecFields {
    opt_entry("action"@, Some(<ActionType as Codec>::encode_spec(c.action))) + opt_entry(
        "channel"@,
        enc_opt_codec_field::<OperationChannelType>(c.channel),
    ) + opt_entry("messages"@, enc_opt_arr_field::<OperationMessageType>(c.messages)) + opt_entry(
        "operationId"@,
        enc_opt_text_field(c.operation_id),
    ) + opt_entry("summary"@, enc_opt_text_field(c.summary)) + opt_entry(
        "description"@,
        enc_opt_text_field(c.description),
    ) + opt_entry("tags"@, enc_arr_field::<Tag>(c.tags)) + opt_entry(
        "externalDocs"@,
        enc_opt_codec_field::<ExternalDocumentation>(c.external_docs),
    ) + opt_entry("bindings"@, enc_opt_codec_field::<ReferenceOr<OperationBinding>>(c.bindings))
        + opt_entry("traits"@, enc_arr_field::<ReferenceOr<OperationTrait>>(c.traits))
        + c.extensions
}

/// The model an operation document decodes to, when every field has its
/// required shape: `action` must be present and one of the two action
/// strings; the other declared fields may be absent; everything undeclared
/// is an extension.
pub open spec fn operation_decode_spec(v: SpecValue) -> Option<SpecOperation> {
    match v {
        SpecValue::Obj(fs) => {
            let f_action = match lookup(fs, "action"@) {
                Some(av) => <ActionType as Codec>::decode_spec(av),
                None => None,
            };
            let f_channel = dec_opt_codec_field::<OperationChannelType>(lookup(fs, "channel"@));
            let f_messages = dec_opt_arr_field::<OperationMessageType>(lookup(fs, "messages"@));
            let f_operation_id = dec_opt_text_field(lookup(fs, "operationId"@));
            let f_summary = dec_opt_text_field(lookup(fs, "summary"@));
            let f_description = dec_opt_text_field(lookup(fs, "description"@));
            let f_tags = dec_arr_field::<Tag>(lookup(fs, "tags"@));
            let f_external_docs = dec_opt_codec_field::<ExternalDocumentation>(
                lookup(fs, "externalDocs"@),
            );
            let f_bindings = dec_opt_codec_field::<ReferenceOr<OperationBinding>>(
                lookup(fs, "bindings"@),
            );
            let f_traits = dec_arr_field::<ReferenceOr<OperationTrait>>(lookup(fs, "traits"@));
            if f_action is Some && f_channel is Some && f_messages is Some && f_operation_id
                is Some && f_summary is Some && f_description is Some && f_tags is Some
                && f_external_docs is Some && f_bindings is Some && f_traits is Some {
                Some(
                    SpecOperation {
                        action: f_action->Some_0,
                        channel: f_channel->Some_0,
                        messages: f_messages->Some_0,
                        operation_id: f_operation_id->Some_0,
                        summary: f_summary->Some_0,
                        description: f_description->Some_0,
                        tags: f_tags->Some_0,
                        external_docs: f_external_docs->Some_0,
                        bindings: f_bindings->Some_0,
                        traits: f_traits->Some_0,
                        extensions: restrict_unknown(fs, operation_known_keys()),
                    },
                )
            } else {
                None
            }
        },
        _ => None,
    }
}

/// A well-formed operation model: its sub-entities are well formed and its
/// extension keys stay clear of the declared keys.
pub open spec fn operation_wf(c: SpecOperation) -> bool {
    &&& keys_disjoint(c.extensions, operation_known_keys())
    &&& opt_codec_wf::<OperationChannelType>(c.channel)
    &&& match c.messages {
        Some(ms) => forall|i: int|
            0 <= i < ms.len() ==> <OperationMessageType as Codec>::wf(#[trigger] ms[i]),
        None => true,
    }
    &&& opt_codec_wf::<ExternalDocumentation>(c.external_docs)
    &&& opt_codec_wf::<ReferenceOr<OperationBinding>>(c.bindings)
    &&& forall|i: int|
        0 <= i < c.traits.len() ==> <ReferenceOr<OperationTrait> as Codec>::wf(
            #[trigger] c.traits[i],
        )
}

proof fn lemma_operation_keys()
    ensures
        operation_known_keys().contains("action"@),
        operation_known_keys().contains("channel"@),
        operation_known_keys().contains("messages"@),
        operation_known_keys().contains("operationId"@),
        operation_known_keys().contains("summary"@),
        operation_known_keys().contains("description"@),
        operation_known_keys().contains("tags"@),
        operation_known_keys().contains("externalDocs"@),
        operation_known_keys().contains("bindings"@),
        operation_known_keys().contains("traits"@),
        "action"@ != "channel"@ && "action"@ != "messages"@ && "action"@ != "operationId"@
            && "action"@ != "summary"@ && "action"@ != "description"@ && "action"@ != "tags"@
            && "action"@ != "externalDocs"@ && "action"@ != "bindings"@ && "action"@ != "traits"@,
        "channel"@ != "messages"@ && "channel"@ != "operationId"@ && "channel"@ != "summary"@
            && "channel"@ != "description"@ && "channel"@ != "tags"@ && "channel"@
            != "externalDocs"@ && "channel"@ != "bindings"@ && "channel"@ != "traits"@,
        "messages"@ != "operationId"@ && "messages"@ != "summary"@ && "messages"@
            != "description"@ && "messages"@ != "tags"@ && "messages"@ != "externalDocs"@
            && "messages"@ != "bindings"@ && "messages"@ != "traits"@,
        "operationId"@ != "summary"@ && "operationId"@ != "description"@ && "operationId"@
            != "tags"@ && "operationId"@ != "externalDocs"@ && "operationId"@ != "bindings"@
            && "operationId"@ != "traits"@,
        "summary"@ != "description"@ && "summary"@ != "tags"@ && "summary"@ != "externalDocs"@
            && "summary"@ != "bindings"@ && "summary"@ != "traits"@,
        "description"@ != "tags"@ && "description"@ != "externalDocs"@ && "description"@
            != "bindings"@ && "description"@ != "traits"@,
        "tags"@ != "externalDocs"@ && "tags"@ != "bindings"@ && "tags"@ != "traits"@,
        "externalDocs"@ != "bindings"@ && "externalDocs"@ != "traits"@,
        "bindings"@ != "traits"@,
{
    reveal_strlit("action");
    reveal_strlit("channel");
    reveal_strlit("messages");
    reveal_strlit("operationId");
    reveal_strlit("summary");
    reveal_strlit("description");
    reveal_strlit("tags");
    reveal_strlit("externalDocs");
    reveal_strlit("bindings");
    reveal_strlit("traits");
    assert("action"@[0] == 'a');
    assert("channel"@[0] == 'c');
    assert("messages"@[0] == 'm');
    assert("operationId"@[0] == 'o');
    assert("summary"@[0] == 's');
    assert("description"@[0] == 'd');
    assert("tags"@[0] == 't');
    assert("externalDocs"@[0] == 'e');
    assert("bindings"@[0] == 'b');
    assert("traits"@[0] == 't');
    assert("tags"@.len() == 4 && "traits"@.len() == 6);
    assert(operation_known_keys()[0] == "action"@);
    assert(operation_known_keys()[1] == "channel"@);
    assert(operation_known_keys()[2] == "messages"@);
    assert(operation_known_keys()[3] == "operationId"@);
    assert(operation_known_keys()[4] == "summary"@);
    assert(operation_known_keys()[5] == "description"@);
    assert(operation_known_keys()[6] == "tags"@);
    assert(operation_known_keys()[7] == "externalDocs"@);
    assert(operation_known_keys()[8] == "bindings"@);
    assert(operation_known_keys()[9] == "traits"@);
}

impl Codec for Operation {
    open spec fn wf(c: SpecOperation) -> bool {
        operation_wf(c)
    }

    open spec fn decode_spec(v: SpecValue) -> Option<SpecOperation> {
        operation_decode_spec(v)
    }

    open spec fn encode_spec(c: SpecOperation) -> SpecValue {
        SpecValue::Obj(operation_enc_fields(c))
    }

    proof fn law_round_trip(c: SpecOperation) {
        let known = operation_known_keys();
        let efs = operation_enc_fields(c);
        lemma_operation_keys();
        lemma_lookup_disjoint(c.extensions, known, "action"@);
        lemma_lookup_disjoint(c.extensions, known, "channel"@);
        lemma_lookup_disjoint(c.extensions, known, "messages"@);
        lemma_lookup_disjoint(c.extensions, known, "operationId"@);
        lemma_lookup_disjoint(c.extensions, known, "summary"@);
        lemma_lookup_disjoint(c.extensions, known, "description"@);
        lemma_lookup_disjoint(c.extensions, known, "tags"@);
        lemma_lookup_disjoint(c.extensions, known, "externalDocs"@);
        lemma_lookup_disjoint(c.extensions, known, "bindings"@);
        lemma_lookup_disjoint(c.extensions, known, "traits"@);
        lemma_unknown_disjoint(c.extensions, known);
        assert(lookup(efs, "action"@) == Some(<ActionType as Codec>::encode_spec(c.action)));
        <ActionType as Codec>::law_round_trip(c.action);
        assert(lookup(efs, "channel"@) == enc_opt_codec_field::<OperationChannelType>(c.channel));
        match c.channel {
            Some(ch) => {
                <OperationChannelType as Codec>::law_round_trip(ch);
            },
            None => {
            },
        }
        assert(lookup(efs, "messages"@) == enc_opt_arr_field::<OperationMessageType>(c.messages));
        match c.messages {
            Some(ms) => {
                lemma_codec_arr_round_trip::<OperationMessageType>(ms);
            },
            None => {
            },
        }
        assert(lookup(efs, "operationId"@) == enc_opt_text_field(c.operation_id));
        assert(lookup(efs, "summary"@) == enc_opt_text_field(c.summary));
        assert(lookup(efs, "description"@) == enc_opt_text_field(c.description));
        assert(lookup(efs, "tags"@) == enc_arr_field::<Tag>(c.tags));
        if c.tags.len() == 0 {
            assert(dec_arr_field::<Tag>(lookup(efs, "tags"@)) == Some(c.tags)) by {
                assert(Seq::<SpecFields>::empty() =~= c.tags);
            }
        } else {
            lemma_codec_arr_round_trip::<Tag>(c.tags);
        }
        assert(lookup(efs, "externalDocs"@) == enc_opt_codec_field::<ExternalDocumentation>(
            c.external_docs,
        ));
        match c.external_docs {
            Some(d) => {
                <ExternalDocumentation as Codec>::law_round_trip(d);
            },
            None => {
            },
        }
        assert(lookup(efs, "bindings"@) == enc_opt_codec_field::<ReferenceOr<OperationBinding>>(
            c.bindings,
        ));
        match c.bindings {
            Some(b) => {
                <ReferenceOr<OperationBinding> as Codec>::law_round_trip(b);
            },
            None => {
            },
        }
        assert(lookup(efs, "traits"@) == enc_arr_field::<ReferenceOr<OperationTrait>>(c.traits));
        if c.traits.len() == 0 {
            assert(dec_arr_field::<ReferenceOr<OperationTrait>>(lookup(efs, "traits"@)) == Some(
                c.traits,
            )) by {
                assert(Seq::<SpecRefOr<SpecFields>>::empty() =~= c.traits);
            }
        } else {
            lemma_codec_arr_round_trip::<ReferenceOr<OperationTrait>>(c.traits);
        }
        assert(restrict_unknown(efs, known) =~= c.extensions);
        assert(operation_decode_spec(SpecValue::Obj(efs)) == Some(c));
    }

    fn decode(v: &Value) -> (r: Option<Self>) {
        let fields = match v {
            Value::Obj(fields) => fields,
            _ => {
                return None;
            },
        };
        proof {
            lemma_obj_view(*fields);
        }
        let action = match lookup_field(fields, "action") {
            Some(av) => match <ActionType as Codec>::decode(av) {
                Some(a) => a,
                None => {
                    return None;
                },
            },
            None => {
                return None;
            },
        };
        let channel = match decode_opt_codec_field::<OperationChannelType>(
            lookup_field(fields, "channel"),
        ) {
            Some(x) => x,
            None => {
                return None;
            },
        };
        let messages: Option<Vec<OperationMessageType>> = match lookup_field(fields, "messages") {
            Some(mv) => match mv {
                Value::Null => None,
                _ => {
                    proof {
                        crate::value::lemma_view_not_null(mv);
                    }
                    match decode_codec_arr::<OperationMessageType>(mv) {
                        Some(ms) => Some(ms),
                        None => {
                            return None;
                        },
                    }
                },
            },
            None => None,
        };
        let operation_id = match decode_opt_text_field(lookup_field(fields, "operationId")) {
            Some(x) => x,
            None => {
                return None;
            },
        };
        let summary = match decode_opt_text_field(lookup_field(fields, "summary")) {
            Some(x) => x,
            None => {
                return None;
            },
        };
        let description = match decode_opt_text_field(lookup_field(fields, "description")) {
            Some(x) => x,
            None => {
                return None;
            },
        };
        let tags = match lookup_field(fields, "tags") {
            Some(tv) => match decode_codec_arr::<Tag>(tv) {
                Some(ts) => ts,
                None => {
                    return None;
                },
            },
            None => Vec::new(),
        };
        proof {
            if lookup(fields_view(fields@), "tags"@) is None {
                assert(arr_view(tags@) =~= Seq::<SpecFields>::empty());
            }
        }
        let external_docs = match decode_opt_codec_field::<ExternalDocumentation>(
            lookup_field(fields, "externalDocs"),
        ) {
            Some(x) => x,
            None => {
                return None;
            },
        };
        let bindings = match decode_opt_codec_field::<ReferenceOr<OperationBinding>>(
            lookup_field(fields, "bindings"),
        ) {
            Some(x) => x,
            None => {
                return None;
            },
        };
        let traits = match lookup_field(fields, "traits") {
            Some(tv) => match decode_codec_arr::<ReferenceOr<OperationTrait>>(tv) {
                Some(ts) => ts,
                None => {
                    return None;
                },
            },
            None => Vec::new(),
        };
        proof {
            if lookup(fields_view(fields@), "traits"@) is None {
                assert(arr_view(traits@) =~= Seq::<SpecRefOr<SpecFields>>::empty());
            }
        }
        let known: Vec<String> = vec![
            "action".to_owned(),
            "channel".to_owned(),
            "messages".to_owned(),
            "operationId".to_owned(),
            "summary".to_owned(),
            "description".to_owned(),
            "tags".to_owned(),
            "externalDocs".to_owned(),
            "bindings".to_owned(),
            "traits".to_owned(),
        ];
        proof {
            assert(keys_of(known@) =~= operation_known_keys());
        }
        let extensions = collect_unknown(fields, &known);
        let c = Operation {
            action,
            channel,
            messages,
            operation_id,
            summary,
            description,
            tags,
            external_docs,
            bindings,
            traits,
            extensions,
        };
        proof {
            assert(operation_decode_spec(v@) == Some(c@));
        }
        Some(c)
    }

    fn encode(&self) -> (r: Value) {
        let ghost c = self@;
        let mut fields: Vec<(String, Value)> = Vec::new();
        proof {
            assert(fields_view(fields@) =~= Seq::<(Seq<char>, SpecValue)>::empty());
        }
        let av = self.action.encode();
        push_opt_field(&mut fields, "action", Some(av));
        let cv: Option<Value> = match &self.channel {
            Some(ch) => Some(ch.encode()),
            None => None,
        };
        proof {
            assert(opt_value_view(cv) == enc_opt_codec_field::<OperationChannelType>(c.channel));
        }
        push_opt_field(&mut fields, "channel", cv);
        let mv: Option<Value> = match &self.messages {
            Some(ms) => Some(encode_codec_arr::<OperationMessageType>(ms)),
            None => None,
        };
        proof {
            assert(opt_value_view(mv) == enc_opt_arr_field::<OperationMessageType>(c.messages));
        }
        push_opt_field(&mut fields, "messages", mv);
        let ov: Option<Value> = match &self.operation_id {
            Some(s) => Some(Value::Text(s.clone())),
            None => None,
        };
        proof {
            assert(opt_value_view(ov) == enc_opt_text_field(c.operation_id));
        }
        push_opt_field(&mut fields, "operationId", ov);
        let sv: Option<Value> = match &self.summary {
            Some(s) => Some(Value::Text(s.clone())),
            None => None,
        };
        proof {
            assert(opt_value_view(sv) == enc_opt_text_field(c.summary));
        }
        push_opt_field(&mut fields, "summary", sv);
        let dv: Option<Value> = match &self.description {
            Some(s) => Some(Value::Text(s.clone())),
            None => None,
        };
        proof {
            assert(opt_value_view(dv) == enc_opt_text_field(c.description));
        }
        push_opt_field(&mut fields, "description", dv);
        let tv: Option<Value> = if self.tags.len() > 0 {
            Some(encode_codec_arr::<Tag>(&self.tags))
        } else {
            None
        };
        proof {
            assert(opt_value_view(tv) == enc_arr_field::<Tag>(c.tags));
        }
        push_opt_field(&mut fields, "tags", tv);
        let ev: Option<Value> = match &self.external_docs {
            Some(d) => Some(d.encode()),
            None => None,
        };
        proof {
            assert(opt_value_view(ev) == enc_opt_codec_field::<ExternalDocumentation>(
                c.external_docs,
            ));
        }
        push_opt_field(&mut fields, "externalDocs", ev);
        let bv: Option<Value> = match &self.bindings {
            Some(b) => Some(b.encode()),
            None => None,
        };
        proof {
            assert(opt_value_view(bv) == enc_opt_codec_field::<ReferenceOr<OperationBinding>>(
                c.bindings,
            ));
        }
        push_opt_field(&mut fields, "bindings", bv);
        let rv: Option<Value> = if self.traits.len() > 0 {
            Some(encode_codec_arr::<ReferenceOr<OperationTrait>>(&self.traits))
        } else {
            None
        };
        proof {
            assert(opt_value_view(rv) == enc_arr_field::<ReferenceOr<OperationTrait>>(c.traits));
        }
        push_opt_field(&mut fields, "traits", rv);
        let ghost before_ext = fields@;
        let mut ext = crate::entities::copy_fields(&self.extensions);
        let ghost ext_pre = ext@;
        fields.append(&mut ext);
        proof {
            crate::value::lemma_fields_view_concat(before_ext, ext_pre);
            assert(Seq::<(Seq<char>, SpecValue)>::empty() + opt_entry(
                "action"@,
                Some(<ActionType as Codec>::encode_spec(c.action)),
            ) =~= opt_entry("action"@, Some(<ActionType as Codec>::encode_spec(c.action))));
            assert(fields_view(fields@) == operation_enc_fields(c));
            lemma_obj_view(fields);
        }
        Value::Obj(fields)
    }
}

/// Law: any extension field of an operation document — a field whose key is
/// not a declared operation key — survives a decode and is present verbatim
/// in the re-encoded object, alongside the declared fields.
pub proof fn lemma_operation_extensions_preserved(v: SpecValue, i: int)
    requires
        operation_decode_spec(v) is Some,
        v is Obj,
        0 <= i < v->Obj_0.len(),
        is_unknown_key(v->Obj_0[i].0, operation_known_keys()),
    ensures
        (<Operation as Codec>::encode_spec(operation_decode_spec(v)->Some_0)
            matches SpecValue::Obj(efs) && efs.contains(v->Obj_0[i])),
{
    broadcast use crate::fields::lemma_concat_contains;

    let fs = v->Obj_0;
    let c = operation_decode_spec(v)->Some_0;
    lemma_unknown_field_preserved(fs, operation_known_keys(), i);
    assert(c.extensions.contains(fs[i]));
    assert(operation_enc_fields(c).contains(fs[i]));
}

/// Law: decoding an operation channel value from a non-null document value
/// yields a well-formed model that never encodes back to null.
pub proof fn lemma_operation_channel_decode_props(w: SpecValue)
    requires
        w != SpecValue::Null,
        <OperationChannelType as Codec>::decode_spec(w) is Some,
    ensures
        <OperationChannelType as Codec>::wf(
            <OperationChannelType as Codec>::decode_spec(w)->Some_0,
        ),
        <OperationChannelType as Codec>::encode_spec(
            <OperationChannelType as Codec>::decode_spec(w)->Some_0,
        ) != SpecValue::Null,
{
}

/// Law: decoding an operation establishes its well-formedness, so the
/// round-trip law applies to every decoded operation.
pub proof fn lemma_operation_decode_wf(v: SpecValue)
    requires
        operation_decode_spec(v) is Some,
    ensures
        operation_wf(operation_decode_spec(v)->Some_0),
{
    let fs = v->Obj_0;
    let c = operation_decode_spec(v)->Some_0;
    crate::fields::lemma_restrict_unknown_disjoint(fs, operation_known_keys());
    match lookup(fs, "channel"@) {
        Some(w) => {
            if w != SpecValue::Null {
                lemma_operation_channel_decode_props(w);
            }
        },
        None => {
        },
    }
    match lookup(fs, "messages"@) {
        Some(w) => {
            if w != SpecValue::Null {
                match w {
                    SpecValue::Arr(items) => {
                        assert forall|u: SpecValue|
                            (#[trigger] <OperationMessageType as Codec>::decode_spec(u))
                                is Some implies <OperationMessageType as Codec>::wf(
                            <OperationMessageType as Codec>::decode_spec(u)->Some_0,
                        ) by {
                        }
                        crate::codec::lemma_dec_codec_arr_wf::<OperationMessageType>(items);
                    },
                    _ => {
                        assert(false);
                    },
                }
            }
        },
        None => {
        },
    }
    match lookup(fs, "bindings"@) {
        Some(w) => {
            if w != SpecValue::Null {
                crate::reference::lemma_ref_or_decode_wf::<OperationBinding>(w);
                crate::reference::lemma_ref_or_exact_reencode::<OperationBinding>(w);
            }
        },
        None => {
        },
    }
    match lookup(fs, "traits"@) {
        Some(w) => {
            match w {
                SpecValue::Arr(items) => {
                    assert forall|u: SpecValue|
                        (#[trigger] <ReferenceOr<OperationTrait> as Codec>::decode_spec(u))
                            is Some implies <ReferenceOr<OperationTrait> as Codec>::wf(
                        <ReferenceOr<OperationTrait> as Codec>::decode_spec(u)->Some_0,
                    ) by {
                        crate::reference::lemma_ref_or_decode_wf::<OperationTrait>(u);
                    }
                    crate::codec::lemma_dec_codec_arr_wf::<ReferenceOr<OperationTrait>>(items);
                },
                _ => {
                    assert(false);
                },
            }
        },
        None => {
        },
    }
}

} // verus!
