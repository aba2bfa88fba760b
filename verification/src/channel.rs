//! A channel: the operations available on a single named address, with its
//! messages, parameters, bindings and extension fields.
use vstd::prelude::*;

use crate::codec::{
    dec_codec_map, dec_map_field, dec_nullable_codec_map, dec_opt_codec_field, dec_opt_text_field,
    dec_str_arr_field, enc_codec_map, enc_map_field, enc_nullable_codec_map, enc_opt_codec_field,
    enc_opt_text_field, enc_str_arr_field, Codec,
};
use crate::codec::{
    decode_codec_map, decode_nullable_codec_map, decode_opt_codec_field, decode_opt_text_field,
    decode_str_arr, encode_codec_map, encode_nullable_codec_map, encode_str_arr,
};
use crate::codec::{
    lemma_codec_map_round_trip, lemma_nullable_codec_map_round_trip, lemma_str_arr_round_trip,
};
use crate::codec::{map_view, nmap_view, opt_codec_wf, opt_str_view, opt_view, strs_view};
use crate::entities::{ChannelBinding, Message, Parameter};
use crate::fields::{
    is_unknown_key, keys_disjoint, keys_of, lemma_lookup_concat, lemma_lookup_disjoint,
    lemma_lookup_opt_entry, lemma_unknown_concat, lemma_unknown_disjoint,
    lemma_unknown_field_preserved, lemma_unknown_opt_entry, lookup, opt_entry, restrict_unknown,
};
use crate::fields::{collect_unknown, lookup_field};
use crate::reference::{ReferenceOr, SpecRefOr};
use crate::value::{fields_view, lemma_obj_view, SpecFields, SpecValue, Value};

verus! {

broadcast use
    vstd::std_specs::vec::group_vec_axioms,
    vstd::seq::group_seq_axioms,
    crate::value::lemma_view_variant,
    lemma_lookup_concat,
    lemma_lookup_opt_entry,
    lemma_unknown_concat,
    lemma_unknown_opt_entry,
;

/// The messages of a channel entry: either a named map of message references
/// or a single message reference, discriminated by shape. The map shape is
/// tried first: an object every one of whose values is a message reference
/// or inline message reads as the map; otherwise the object itself must be a
/// single message reference or inline message.
pub enum OperationMessageType {
    /// Named message references.
    Named(Vec<(String, ReferenceOr<Message>)>),
    /// One message reference.
    Single(ReferenceOr<Message>),
}

/// The model of an [`OperationMessageType`].
pub enum SpecChannelMessages {
    Named(Seq<(Seq<char>, SpecRefOr<SpecFields>)>),
    Single(SpecRefOr<SpecFields>),
}

impl View for OperationMessageType {
    type V = SpecChannelMessages;

    open spec fn view(&self) -> SpecChannelMessages {
        match self {
            OperationMessageType::Named(m) => SpecChannelMessages::Named(map_view(m@)),
            OperationMessageType::Single(r) => SpecChannelMessages::Single(r@),
        }
    }
}

/// Whether the encoding of a single message reference could also read as a
/// named message map; a well-formed single variant must not, or decoding
/// would pick the map shape.
pub open spec fn single_reads_as_map(r: SpecRefOr<SpecFields>) -> bool {
    match <ReferenceOr<Message> as Codec>::encode_spec(r) {
        SpecValue::Obj(fs) => dec_codec_map::<ReferenceOr<Message>>(fs) is Some,
        _ => false,
    }
}

impl Codec for OperationMessageType {
    open spec fn wf(m: SpecChannelMessages) -> bool {
        match m {
            SpecChannelMessages::Named(entries) => forall|i: int|
                0 <= i < entries.len() ==> <ReferenceOr<Message> as Codec>::wf(
                    #[trigger] entries[i].1,
                ),
            SpecChannelMessages::Single(r) => <ReferenceOr<Message> as Codec>::wf(r)
                && !single_reads_as_map(r),
        }
    }

    open spec fn decode_spec(v: SpecValue) -> Option<SpecChannelMessages> {
        let as_map = match v {
            SpecValue::Obj(fs) => dec_codec_map::<ReferenceOr<Message>>(fs),
            _ => None,
        };
        match as_map {
            Some(entries) => Some(SpecChannelMessages::Named(entries)),
            None => match <ReferenceOr<Message> as Codec>::decode_spec(v) {
                Some(r) => Some(SpecChannelMessages::Single(r)),
                None => None,
            },
        }
    }

    open spec fn encode_spec(m: SpecChannelMessages) -> SpecValue {
        match m {
            SpecChannelMessages::Named(entries) => SpecValue::Obj(
                enc_codec_map::<ReferenceOr<Message>>(entries),
            ),
            SpecChannelMessages::Single(r) => <ReferenceOr<Message> as Codec>::encode_spec(r),
        }
    }

    proof fn law_round_trip(m: SpecChannelMessages) {
        match m {
            SpecChannelMessages::Named(entries) => {
                lemma_codec_map_round_trip::<ReferenceOr<Message>>(entries);
            },
            SpecChannelMessages::Single(r) => {
                <ReferenceOr<Message> as Codec>::law_round_trip(r);
            },
        }
    }

    fn decode(v: &Value) -> (r: Option<Self>) {
        if let Value::Obj(fields) = v {
            proof {
                lemma_obj_view(*fields);
            }
            if let Some(entries) = decode_codec_map::<ReferenceOr<Message>>(fields) {
                return Some(OperationMessageType::Named(entries));
            }
        }
        match <ReferenceOr<Message> as Codec>::decode(v) {
            Some(r) => Some(OperationMessageType::Single(r)),
            None => None,
        }
    }

    fn encode(&self) -> (r: Value) {
        match self {
            OperationMessageType::Named(entries) => {
                let out = encode_codec_map::<ReferenceOr<Message>>(entries);
                proof {
                    lemma_obj_view(out);
                }
                Value::Obj(out)
            },
            OperationMessageType::Single(r) => r.encode(),
        }
    }
}

/// The model of a [`Channel`].
pub struct SpecChannel {
    pub messages: Seq<(Seq<char>, Option<SpecChannelMessages>)>,
    pub address: Option<Seq<char>>,
    pub description: Option<Seq<char>>,
    pub servers: Seq<Seq<char>>,
    pub parameters: Seq<(Seq<char>, SpecRefOr<SpecFields>)>,
    pub bindings: Option<SpecRefOr<SpecFields>>,
    pub extensions: SpecFields,
    pub reference: Option<Seq<char>>,
}

/// Describes the operations available on a single channel.
pub struct Channel {
    /// The named messages of this channel; a name may map to an explicit
    /// null.
    pub messages: Vec<(String, Option<OperationMessageType>)>,
    /// The channel's address.
    pub address: Option<String>,
    /// An optional description of this channel item.
    pub description: Option<String>,
    /// Names of the servers on which this channel is available; empty means
    /// all servers.
    pub servers: Vec<String>,
    /// The parameters included in the channel name.
    pub parameters: Vec<(String, ReferenceOr<Parameter>)>,
    /// Protocol-specific definitions for the channel.
    pub bindings: Option<ReferenceOr<ChannelBinding>>,
    /// Fields not part of the formal schema, kept verbatim and in order.
    pub extensions: Vec<(String, Value)>,
    /// An external definition of this channel item, under the document key
    /// `$ref`.
    pub reference: Option<String>,
}

impl View for Channel {
    type V = SpecChannel;

    open spec fn view(&self) -> SpecChannel {
        SpecChannel {
            messages: nmap_view(self.messages@),
            address: opt_str_view(self.address),
            description: opt_str_view(self.description),
            servers: strs_view(self.servers@),
            parameters: map_view(self.parameters@),
            bindings: opt_view(self.bindings),
            extensions: fields_view(self.extensions@),
            reference: opt_str_view(self.reference),
        }
    }
}

/// The declared document keys of a channel; everything else is an extension.
pub open spec fn channel_known_keys() -> Seq<Seq<char>> {
    seq![
        "messages"@,
        "address"@,
        "description"@,
        "servers"@,
        "parameters"@,
        "bindings"@,
        "$ref"@,
    ]
}

/// The field list a channel encodes to: declared fields in declaration
/// order, then the extension fields, then the deprecated `$ref`.
pub open spec fn channel_enc_fields(c: SpecChannel) -> SpecFields {
    opt_entry(
        "messages"@,
        Some(SpecValue::Obj(enc_nullable_codec_map::<OperationMessageType>(c.messages))),
    ) + opt_entry("address"@, enc_opt_text_field(c.address)) + opt_entry(
        "description"@,
        enc_opt_text_field(c.description),
    ) + opt_entry("servers"@, enc_str_arr_field(c.servers)) + opt_entry(
        "parameters"@,
        enc_map_field::<ReferenceOr<Parameter>>(c.parameters),
    ) + opt_entry("bindings"@, enc_opt_codec_field::<ReferenceOr<ChannelBinding>>(c.bindings))
        + c.extensions + opt_entry("$ref"@, enc_opt_text_field(c.reference))
}

/// The model a channel document decodes to, when every field has its
/// required shape: `messages` must be present and an object; the other
/// declared fields may be absent; everything undeclared is an extension.
pub open spec fn channel_decode_spec(v: SpecValue) -> Option<SpecChannel> {
    match v {
        SpecValue::Obj(fs) => {
            let f_messages = match lookup(fs, "messages"@) {
                Some(SpecValue::Obj(mfs)) => dec_nullable_codec_map::<OperationMessageType>(mfs),
                _ => None,
            };
            let f_address = dec_opt_text_field(lookup(fs, "address"@));
            let f_description = dec_opt_text_field(lookup(fs, "description"@));
            let f_servers = dec_str_arr_field(lookup(fs, "servers"@));
            let f_parameters = dec_map_field::<ReferenceOr<Parameter>>(lookup(fs, "parameters"@));
            let f_bindings = dec_opt_codec_field::<ReferenceOr<ChannelBinding>>(
                lookup(fs, "bindings"@),
            );
            let f_reference = dec_opt_text_field(lookup(fs, "$ref"@));
            if f_messages is Some && f_address is Some && f_description is Some && f_servers
                is Some && f_parameters is Some && f_bindings is Some && f_reference is Some {
                Some(
                    SpecChannel {
                        messages: f_messages->Some_0,
                        address: f_address->Some_0,
                        description: f_description->Some_0,
                        servers: f_servers->Some_0,
                        parameters: f_parameters->Some_0,
                        bindings: f_bindings->Some_0,
                        extensions: restrict_unknown(fs, channel_known_keys()),
                        reference: f_reference->Some_0,
                    },
                )
            } else {
                None
            }
        },
        _ => None,
    }
}

/// A well-formed channel model: its sub-entities are well formed and its
/// extension keys stay clear of the declared keys.
pub open spec fn channel_wf(c: SpecChannel) -> bool {
    &&& keys_disjoint(c.extensions, channel_known_keys())
    &&& forall|i: int|
        0 <= i < c.messages.len() ==> opt_codec_wf::<OperationMessageType>(
            #[trigger] c.messages[i].1,
        )
    &&& forall|i: int|
        0 <= i < c.parameters.len() ==> <ReferenceOr<Parameter> as Codec>::wf(
            #[trigger] c.parameters[i].1,
        )
    &&& opt_codec_wf::<ReferenceOr<ChannelBinding>>(c.bindings)
}

proof fn lemma_channel_keys()
    ensures
        channel_known_keys().contains("messages"@),
        channel_known_keys().contains("address"@),
        channel_known_keys().contains("description"@),
        channel_known_keys().contains("servers"@),
        channel_known_keys().contains("parameters"@),
        channel_known_keys().contains("bindings"@),
        channel_known_keys().contains("$ref"@),
        "messages"@ != "address"@ && "messages"@ != "description"@ && "messages"@ != "servers"@
            && "messages"@ != "parameters"@ && "messages"@ != "bindings"@ && "messages"@
            != "$ref"@,
        "address"@ != "description"@ && "address"@ != "servers"@ && "address"@ != "parameters"@
            && "address"@ != "bindings"@ && "address"@ != "$ref"@,
        "description"@ != "servers"@ && "description"@ != "parameters"@ && "description"@
            != "bindings"@ && "description"@ != "$ref"@,
        "servers"@ != "parameters"@ && "servers"@ != "bindings"@ && "servers"@ != "$ref"@,
        "parameters"@ != "bindings"@ && "parameters"@ != "$ref"@,
        "bindings"@ != "$ref"@,
{
    reveal_strlit("messages");
    reveal_strlit("address");
    reveal_strlit("description");
    reveal_strlit("servers");
    reveal_strlit("parameters");
    reveal_strlit("bindings");
    reveal_strlit("$ref");
    assert("messages"@[0] == 'm');
    assert("address"@[0] == 'a');
    assert("description"@[0] == 'd');
    assert("servers"@[0] == 's');
    assert("parameters"@[0] == 'p');
    assert("bindings"@[0] == 'b');
    assert("$ref"@[0] == '$');
    assert(channel_known_keys()[0] == "messages"@);
    assert(channel_known_keys()[1] == "address"@);
    assert(channel_known_keys()[2] == "description"@);
    assert(channel_known_keys()[3] == "servers"@);
    assert(channel_known_keys()[4] == "parameters"@);
    assert(channel_known_keys()[5] == "bindings"@);
    assert(channel_known_keys()[6] == "$ref"@);
}

impl Codec for Channel {
    open spec fn wf(c: SpecChannel) -> bool {
        channel_wf(c)
    }

    open spec fn decode_spec(v: SpecValue) -> Option<SpecChannel> {
        channel_decode_spec(v)
    }

    open spec fn encode_spec(c: SpecChannel) -> SpecValue {
        SpecValue::Obj(channel_enc_fields(c))
    }

    proof fn law_round_trip(c: SpecChannel) {
        let known = channel_known_keys();
        let efs = channel_enc_fields(c);
        lemma_channel_keys();
        lemma_lookup_disjoint(c.extensions, known, "messages"@);
        lemma_lookup_disjoint(c.extensions, known, "address"@);
        lemma_lookup_disjoint(c.extensions, known, "description"@);
        lemma_lookup_disjoint(c.extensions, known, "servers"@);
        lemma_lookup_disjoint(c.extensions, known, "parameters"@);
        lemma_lookup_disjoint(c.extensions, known, "bindings"@);
        lemma_lookup_disjoint(c.extensions, known, "$ref"@);
        lemma_unknown_disjoint(c.extensions, known);
        assert(lookup(efs, "messages"@) == Some(
            SpecValue::Obj(enc_nullable_codec_map::<OperationMessageType>(c.messages)),
        ));
        lemma_nullable_codec_map_round_trip::<OperationMessageType>(c.messages);
        assert(lookup(efs, "address"@) == enc_opt_text_field(c.address));
        assert(lookup(efs, "description"@) == enc_opt_text_field(c.description));
        assert(lookup(efs, "servers"@) == enc_str_arr_field(c.servers));
        if c.servers.len() == 0 {
            assert(dec_str_arr_field(lookup(efs, "servers"@)) == Some(c.servers)) by {
                assert(Seq::<Seq<char>>::empty() =~= c.servers);
            }
        } else {
            lemma_str_arr_round_trip(c.servers);
        }
        assert(lookup(efs, "parameters"@) == enc_map_field::<ReferenceOr<Parameter>>(
            c.parameters,
        ));
        if c.parameters.len() == 0 {
            assert(dec_map_field::<ReferenceOr<Parameter>>(lookup(efs, "parameters"@)) == Some(
                c.parameters,
            )) by {
                assert(Seq::<(Seq<char>, SpecRefOr<SpecFields>)>::empty() =~= c.parameters);
            }
        } else {
            lemma_codec_map_round_trip::<ReferenceOr<Parameter>>(c.parameters);
        }
        assert(lookup(efs, "bindings"@) == enc_opt_codec_field::<ReferenceOr<ChannelBinding>>(
            c.bindings,
        ));
        match c.bindings {
            Some(b) => {
                <ReferenceOr<ChannelBinding> as Codec>::law_round_trip(b);
            },
            None => {
            },
        }
        assert(lookup(efs, "$ref"@) == enc_opt_text_field(c.reference));
        assert(restrict_unknown(efs, known) =~= c.extensions);
        assert(channel_decode_spec(SpecValue::Obj(efs)) == Some(c));
    }

    fn decode(v: &Value) -> (r: Option<Self>) {
        let fields = match v {
            Value::Obj(fields) => fields,
            _ => {
                return None;
            },
        };
        proof {
            lemma_obj_view(*fields);
        }
        let messages = match lookup_field(fields, "messages") {
            Some(mv) => match mv {
                Value::Obj(mfs) => {
                    proof {
                        lemma_obj_view(*mfs);
                    }
                    match decode_nullable_codec_map::<OperationMessageType>(mfs) {
                        Some(m) => m,
                        None => {
                            return None;
                        },
                    }
                },
                _ => {
                    return None;
                },
            },
            None => {
                return None;
            },
        };
        let address = match decode_opt_text_field(lookup_field(fields, "address")) {
            Some(x) => x,
            None => {
                return None;
            },
        };
        let description = match decode_opt_text_field(lookup_field(fields, "description")) {
            Some(x) => x,
            None => {
                return None;
            },
        };
        let servers = match lookup_field(fields, "servers") {
            Some(sv) => match decode_str_arr(sv) {
                Some(ss) => ss,
                None => {
                    return None;
                },
            },
            None => Vec::new(),
        };
        proof {
            if lookup(fields_view(fields@), "servers"@) is None {
                assert(strs_view(servers@) =~= Seq::<Seq<char>>::empty());
            }
        }
        let parameters = match lookup_field(fields, "parameters") {
            Some(pv) => match pv {
                Value::Obj(pfs) => {
                    proof {
                        lemma_obj_view(*pfs);
                    }
                    match decode_codec_map::<ReferenceOr<Parameter>>(pfs) {
                        Some(m) => m,
                        None => {
                            return None;
                        },
                    }
                },
                _ => {
                    return None;
                },
            },
            None => Vec::new(),
        };
        proof {
            if lookup(fields_view(fields@), "parameters"@) is None {
                assert(map_view(parameters@) =~= Seq::<(Seq<char>, SpecRefOr<SpecFields>)>::empty());
            }
        }
        let bindings = match decode_opt_codec_field::<ReferenceOr<ChannelBinding>>(
            lookup_field(fields, "bindings"),
        ) {
            Some(x) => x,
            None => {
                return None;
            },
        };
        let reference = match decode_opt_text_field(lookup_field(fields, "$ref")) {
            Some(x) => x,
            None => {
                return None;
            },
        };
        let known: Vec<String> = vec![
            "messages".to_owned(),
            "address".to_owned(),
            "description".to_owned(),
            "servers".to_owned(),
            "parameters".to_owned(),
            "bindings".to_owned(),
            "$ref".to_owned(),
        ];
        proof {
            assert(keys_of(known@) =~= channel_known_keys());
        }
        let extensions = collect_unknown(fields, &known);
        let c = Channel { messages, address, description, servers, parameters, bindings, extensions, reference };
        proof {
            assert(channel_decode_spec(v@) == Some(c@));
        }
        Some(c)
    }

    fn encode(&self) -> (r: Value) {
        let ghost c = self@;
        let mut fields: Vec<(String, Value)> = Vec::new();
        let mm = encode_nullable_codec_map::<OperationMessageType>(&self.messages);
        proof {
            lemma_obj_view(mm);
        }
        fields.push(("messages".to_owned(), Value::Obj(mm)));
        let ghost g1 = opt_entry(
            "messages"@,
            Some(SpecValue::Obj(enc_nullable_codec_map::<OperationMessageType>(c.messages))),
        );
        proof {
            assert(fields_view(fields@) =~= g1);
        }
        match &self.address {
            Some(a) => {
                fields.push(("address".to_owned(), Value::Text(a.clone())));
            },
            None => {
            },
        }
        let ghost g2 = g1 + opt_entry("address"@, enc_opt_text_field(c.address));
        proof {
            assert(fields_view(fields@) =~= g2);
        }
        match &self.description {
            Some(d) => {
                fields.push(("description".to_owned(), Value::Text(d.clone())));
            },
            None => {
            },
        }
        let ghost g3 = g2 + opt_entry("description"@, enc_opt_text_field(c.description));
        proof {
            assert(fields_view(fields@) =~= g3);
        }
        if self.servers.len() > 0 {
            let sv = encode_str_arr(&self.servers);
            fields.push(("servers".to_owned(), sv));
        }
        let ghost g4 = g3 + opt_entry("servers"@, enc_str_arr_field(c.servers));
        proof {
            assert(fields_view(fields@) =~= g4);
        }
        if self.parameters.len() > 0 {
            let pm = encode_codec_map::<ReferenceOr<Parameter>>(&self.parameters);
            proof {
                lemma_obj_view(pm);
            }
            fields.push(("parameters".to_owned(), Value::Obj(pm)));
        }
        let ghost g5 = g4 + opt_entry(
            "parameters"@,
            enc_map_field::<ReferenceOr<Parameter>>(c.parameters),
        );
        proof {
            assert(fields_view(fields@) =~= g5);
        }
        match &self.bindings {
            Some(b) => {
                let bv = b.encode();
                fields.push(("bindings".to_owned(), bv));
            },
            None => {
            },
        }
        let ghost g6 = g5 + opt_entry(
            "bindings"@,
            enc_opt_codec_field::<ReferenceOr<ChannelBinding>>(c.bindings),
        );
        proof {
            assert(fields_view(fields@) =~= g6);
        }
        let mut ext = crate::entities::copy_fields(&self.extensions);
        fields.append(&mut ext);
        let ghost g7 = g6 + c.extensions;
        proof {
            assert(fields_view(fields@) =~= g7);
        }
        match &self.reference {
            Some(p) => {
                fields.push(("$ref".to_owned(), Value::Text(p.clone())));
            },
            None => {
            },
        }
        let ghost g8 = g7 + opt_entry("$ref"@, enc_opt_text_field(c.reference));
        proof {
            assert(fields_view(fields@) =~= g8);
            assert(g8 == channel_enc_fields(c));
            lemma_obj_view(fields);
        }
        Value::Obj(fields)
    }
}

/// Law: any extension field of a channel document — a field whose key is not
/// a declared channel key — survives a decode and is present verbatim in the
/// re-encoded object, alongside the declared fields.
pub proof fn lemma_channel_extensions_preserved(v: SpecValue, i: int)
    requires
        channel_decode_spec(v) is Some,
        v is Obj,
        0 <= i < v->Obj_0.len(),
        is_unknown_key(v->Obj_0[i].0, channel_known_keys()),
    ensures
        (<Channel as Codec>::encode_spec(channel_decode_spec(v)->Some_0) matches SpecValue::Obj(
            efs,
        ) && efs.contains(v->Obj_0[i])),
{
    broadcast use crate::fields::lemma_concat_contains;

    let fs = v->Obj_0;
    let c = channel_decode_spec(v)->Some_0;
    lemma_unknown_field_preserved(fs, channel_known_keys(), i);
    assert(c.extensions.contains(fs[i]));
    assert(channel_enc_fields(c).contains(fs[i]));
}

/// A channel messages value always encodes to an object, never to null.
pub proof fn lemma_channel_messages_encode_obj(m: SpecChannelMessages)
    ensures
        <OperationMessageType as Codec>::encode_spec(m) is Obj,
{
    match m {
        SpecChannelMessages::Named(_) => {
        },
        SpecChannelMessages::Single(r) => {
            match r {
                SpecRefOr::Reference(_) => {
                },
                SpecRefOr::Item(_) => {
                },
            }
        },
    }
}

/// Law: decoding a channel messages value establishes its well-formedness.
pub proof fn lemma_channel_messages_decode_wf(v: SpecValue)
    requires
        <OperationMessageType as Codec>::decode_spec(v) is Some,
    ensures
        <OperationMessageType as Codec>::wf(
            <OperationMessageType as Codec>::decode_spec(v)->Some_0,
        ),
{
    match v {
        SpecValue::Obj(fs) => {
            if dec_codec_map::<ReferenceOr<Message>>(fs) is Some {
                assert forall|w: SpecValue|
                    (#[trigger] <ReferenceOr<Message> as Codec>::decode_spec(w)) is Some implies
                    <ReferenceOr<Message> as Codec>::wf(
                        <ReferenceOr<Message> as Codec>::decode_spec(w)->Some_0,
                    ) by {
                    crate::reference::lemma_ref_or_decode_wf::<Message>(w);
                }
                crate::codec::lemma_dec_codec_map_wf::<ReferenceOr<Message>>(fs);
            } else {
                crate::reference::lemma_ref_or_decode_wf::<Message>(v);
                crate::reference::lemma_ref_or_exact_reencode::<Message>(v);
            }
        },
        _ => {
            assert(false);
        },
    }
}

/// Law: decoding a channel establishes its well-formedness, so the
/// round-trip law applies to every decoded channel.
pub proof fn lemma_channel_decode_wf(v: SpecValue)
    requires
        channel_decode_spec(v) is Some,
    ensures
        channel_wf(channel_decode_spec(v)->Some_0),
{
    let fs = v->Obj_0;
    let c = channel_decode_spec(v)->Some_0;
    crate::fields::lemma_restrict_unknown_disjoint(fs, channel_known_keys());
    match lookup(fs, "messages"@) {
        Some(SpecValue::Obj(mfs)) => {
            assert forall|w: SpecValue|
                w != SpecValue::Null && (#[trigger] <OperationMessageType as Codec>::decode_spec(
                    w,
                )) is Some implies <OperationMessageType as Codec>::wf(
                <OperationMessageType as Codec>::decode_spec(w)->Some_0,
            ) && <OperationMessageType as Codec>::encode_spec(
                <OperationMessageType as Codec>::decode_spec(w)->Some_0,
            ) != SpecValue::Null by {
                lemma_channel_messages_decode_wf(w);
                lemma_channel_messages_encode_obj(
                    <OperationMessageType as Codec>::decode_spec(w)->Some_0,
                );
            }
            crate::codec::lemma_dec_nullable_codec_map_wf::<OperationMessageType>(mfs);
        },
        _ => {
            assert(false);
        },
    }
    match lookup(fs, "parameters"@) {
        Some(SpecValue::Obj(pfs)) => {
            assert forall|w: SpecValue|
                (#[trigger] <ReferenceOr<Parameter> as Codec>::decode_spec(w)) is Some implies
                <ReferenceOr<Parameter> as Codec>::wf(
                    <ReferenceOr<Parameter> as Codec>::decode_spec(w)->Some_0,
                ) by {
                crate::reference::lemma_ref_or_decode_wf::<Parameter>(w);
            }
            crate::codec::lemma_dec_codec_map_wf::<ReferenceOr<Parameter>>(pfs);
        },
        None => {
        },
        Some(_) => {
            assert(false);
        },
    }
    match lookup(fs, "bindings"@) {
        Some(w) => {
            if w != SpecValue::Null {
                crate::reference::lemma_ref_or_decode_wf::<ChannelBinding>(w);
                crate::reference::lemma_ref_or_exact_reencode::<ChannelBinding>(w);
            }
        },
        None => {
        },
    }
}

} // verus!
