use asyncapi::channel::OperationMessageType as ChannelMessages;
use asyncapi::codec::Codec;
use asyncapi::reference::ReferenceOr;
use asyncapi::value::Value;
use asyncapi::variant_or::{VariantOrUnknown, VariantOrUnknownOrEmpty};
use asyncapi::{ActionType, Channel, Message, Operation, Schema};

fn txt(s: &str) -> Value {
    Value::Text(s.to_string())
}

fn obj(fields: Vec<(&str, Value)>) -> Value {
    Value::Obj(fields.into_iter().map(|(k, v)| (k.to_string(), v)).collect())
}

fn ref_obj(ptr: &str) -> Value {
    obj(vec![("$ref", txt(ptr))])
}

#[test]
fn reference_decodes_and_reencodes_exactly() {
    let doc = ref_obj("#/a/b");
    let r = <ReferenceOr<Message> as Codec>::decode(&doc).expect("a reference object decodes");
    match &r {
        ReferenceOr::Reference { reference } => assert_eq!(reference, "#/a/b"),
        ReferenceOr::Item(_) => panic!("a lone $ref key must give the reference variant"),
    }
    let back = r.encode();
    assert!(back.deep_eq(&doc));
    match &back {
        Value::Obj(fields) => assert_eq!(fields.len(), 1),
        _ => panic!("a reference re-encodes as an object"),
    }
}

#[test]
fn inline_item_decodes_and_reencodes_exactly() {
    let doc = obj(vec![("title", txt("hello")), ("payload", obj(vec![]))]);
    let r = <ReferenceOr<Message> as Codec>::decode(&doc).expect("an inline message decodes");
    assert!(r.as_item().is_some());
    assert!(r.as_reference().is_none());
    let back = r.encode();
    assert!(back.deep_eq(&doc));
}

#[test]
fn ref_with_extra_keys_is_inline_not_reference() {
    let doc = obj(vec![("$ref", txt("#/x")), ("other", txt("y"))]);
    let r = <ReferenceOr<Message> as Codec>::decode(&doc).expect("two keys decode as inline");
    assert!(r.as_item().is_some());
    assert!(r.encode().deep_eq(&doc));
}

#[test]
fn ref_with_non_string_pointer_is_inline() {
    let doc = obj(vec![("$ref", Value::Num("5".to_string()))]);
    let r = <ReferenceOr<Message> as Codec>::decode(&doc).expect("non-string $ref reads inline");
    assert!(r.as_item().is_some());
    assert!(r.encode().deep_eq(&doc));
}

#[test]
fn reference_or_rejects_non_object() {
    assert!(<ReferenceOr<Message> as Codec>::decode(&txt("plain")).is_none());
}

#[test]
fn unknown_value_is_captured_verbatim() {
    let doc = Value::Arr(vec![txt("not"), txt("a"), txt("schema")]);
    let v = <VariantOrUnknown<Schema> as Codec>::decode(&doc).expect("capture never fails");
    match &v {
        VariantOrUnknown::Unknown(raw) => assert!(raw.deep_eq(&doc)),
        VariantOrUnknown::Item(_) => panic!("an array is not a schema object"),
    }
    assert!(v.encode().deep_eq(&doc));
}

#[test]
fn matching_value_is_the_known_variant() {
    let doc = obj(vec![("type", txt("object"))]);
    let v = <VariantOrUnknown<Schema> as Codec>::decode(&doc).expect("capture never fails");
    assert!(matches!(v, VariantOrUnknown::Item(_)));
    assert!(v.encode().deep_eq(&doc));
}

#[test]
fn empty_state_is_distinct_and_round_trips() {
    let empty = <VariantOrUnknownOrEmpty<Schema> as Codec>::decode(&Value::Null)
        .expect("null decodes");
    assert!(matches!(empty, VariantOrUnknownOrEmpty::Empty));
    assert!(empty.encode().deep_eq(&Value::Null));

    let item = <VariantOrUnknownOrEmpty<Schema> as Codec>::decode(&obj(vec![]))
        .expect("an object decodes");
    assert!(matches!(item, VariantOrUnknownOrEmpty::Item(_)));
    assert!(item.encode().deep_eq(&obj(vec![])));

    let unknown = <VariantOrUnknownOrEmpty<Schema> as Codec>::decode(&txt("later"))
        .expect("any other value decodes");
    assert!(matches!(unknown, VariantOrUnknownOrEmpty::Unknown(_)));
    assert!(unknown.encode().deep_eq(&txt("later")));
}

#[test]
fn channel_keeps_extension_fields() {
    let doc = obj(vec![
        ("messages", obj(vec![])),
        ("description", txt("a channel")),
        ("x-custom", txt("v")),
    ]);
    let c = <Channel as Codec>::decode(&doc).expect("the channel decodes");
    assert_eq!(c.extensions.len(), 1);
    assert_eq!(c.extensions[0].0, "x-custom");
    let back = c.encode();
    match &back {
        Value::Obj(fields) => {
            assert!(fields
                .iter()
                .any(|(k, v)| k == "x-custom" && v.deep_eq(&txt("v"))));
            assert!(fields.iter().any(|(k, _)| k == "messages"));
            assert!(fields.iter().any(|(k, _)| k == "description"));
        },
        _ => panic!("a channel encodes as an object"),
    }
}

#[test]
fn channel_message_reference_round_trips() {
    let doc = obj(vec![(
        "messages",
        obj(vec![("a", ref_obj("#/components/messages/a"))]),
    )]);
    let c = <Channel as Codec>::decode(&doc).expect("the channel decodes");
    assert_eq!(c.messages.len(), 1);
    assert_eq!(c.messages[0].0, "a");
    match &c.messages[0].1 {
        Some(ChannelMessages::Single(ReferenceOr::Reference { reference })) => {
            assert_eq!(reference, "#/components/messages/a");
        },
        _ => panic!("a lone reference object is a single message reference"),
    }
    let back = c.encode();
    assert!(back.deep_eq(&doc));
}

#[test]
fn channel_message_map_shape_is_kept() {
    let inner = obj(vec![
        ("first", ref_obj("#/components/messages/first")),
        ("second", obj(vec![("title", txt("inline"))])),
    ]);
    let doc = obj(vec![("messages", obj(vec![("group", inner)]))]);
    let c = <Channel as Codec>::decode(&doc).expect("the channel decodes");
    match &c.messages[0].1 {
        Some(ChannelMessages::Named(entries)) => {
            assert_eq!(entries.len(), 2);
            assert_eq!(entries[0].0, "first");
        },
        _ => panic!("a map of references must not collapse to the single variant"),
    }
    assert!(c.encode().deep_eq(&doc));
}

#[test]
fn channel_null_message_round_trips() {
    let doc = obj(vec![("messages", obj(vec![("quiet", Value::Null)]))]);
    let c = <Channel as Codec>::decode(&doc).expect("the channel decodes");
    assert!(c.messages[0].1.is_none());
    assert!(c.encode().deep_eq(&doc));
}

#[test]
fn channel_requires_messages() {
    assert!(<Channel as Codec>::decode(&obj(vec![("address", txt("a"))])).is_none());
}

#[test]
fn channel_full_document_round_trips() {
    let doc = obj(vec![
        ("messages", obj(vec![])),
        ("address", txt("user/{id}/signup")),
        ("description", txt("signups")),
        ("servers", Value::Arr(vec![txt("prod"), txt("dev")])),
        (
            "parameters",
            obj(vec![("id", ref_obj("#/components/parameters/id"))]),
        ),
        ("bindings", obj(vec![("amqp", obj(vec![]))])),
        ("x-internal", Value::Bool(true)),
        ("$ref", txt("#/old/channel")),
    ]);
    let c = <Channel as Codec>::decode(&doc).expect("the channel decodes");
    assert_eq!(c.address.as_deref(), Some("user/{id}/signup"));
    assert_eq!(c.servers, vec!["prod".to_string(), "dev".to_string()]);
    assert_eq!(c.parameters.len(), 1);
    assert!(c.bindings.is_some());
    assert_eq!(c.reference.as_deref(), Some("#/old/channel"));
    assert!(c.encode().deep_eq(&doc));
}

#[test]
fn operation_decodes_action_and_keeps_extensions() {
    let doc = obj(vec![("action", txt("send")), ("x-team", txt("payments"))]);
    let op = <Operation as Codec>::decode(&doc).expect("the operation decodes");
    assert_eq!(op.action, ActionType::Send);
    assert_eq!(op.extensions.len(), 1);
    assert_eq!(op.extensions[0].0, "x-team");
    let back = op.encode();
    match &back {
        Value::Obj(fields) => {
            assert!(fields
                .iter()
                .any(|(k, v)| k == "x-team" && v.deep_eq(&txt("payments"))));
            assert!(fields.iter().any(|(k, v)| k == "action" && v.deep_eq(&txt("send"))));
        },
        _ => panic!("an operation encodes as an object"),
    }
    assert!(back.deep_eq(&doc));
}

#[test]
fn operation_requires_a_valid_action() {
    assert!(<Operation as Codec>::decode(&obj(vec![])).is_none());
    assert!(<Operation as Codec>::decode(&obj(vec![("action", txt("publish"))])).is_none());
    assert!(<Operation as Codec>::decode(&obj(vec![("action", Value::Null)])).is_none());
}

#[test]
fn operation_full_document_round_trips() {
    let doc = obj(vec![
        ("action", txt("receive")),
        ("channel", ref_obj("#/channels/main")),
        ("messages", Value::Arr(vec![obj(vec![("type", txt("object"))]), txt("odd")])),
        ("operationId", txt("registerUser")),
        ("summary", txt("sign a user up")),
        ("description", txt("longer words")),
        ("tags", Value::Arr(vec![obj(vec![("name", txt("user"))])])),
        ("externalDocs", obj(vec![("url", txt("https://example.test"))])),
        ("bindings", ref_obj("#/components/operationBindings/kafka")),
        ("traits", Value::Arr(vec![ref_obj("#/components/operationTraits/kafka")])),
        ("x-rate", Value::Num("3".to_string())),
    ]);
    let op = <Operation as Codec>::decode(&doc).expect("the operation decodes");
    assert_eq!(op.action, ActionType::Receive);
    assert_eq!(op.operation_id.as_deref(), Some("registerUser"));
    assert_eq!(op.tags.len(), 1);
    assert_eq!(op.traits.len(), 1);
    assert!(op.messages.as_ref().map(|m| m.len()) == Some(2));
    assert!(op.encode().deep_eq(&doc));
}

#[test]
fn action_type_defaults_to_receive() {
    assert_eq!(ActionType::default(), ActionType::Receive);
}

#[test]
fn is_false_reports_the_flag() {
    assert!(asyncapi::is_false(&false));
    assert!(!asyncapi::is_false(&true));
}

#[test]
fn deep_copy_and_deep_eq_agree() {
    let v = obj(vec![
        ("a", Value::Arr(vec![Value::Null, Value::Bool(true), Value::Num("1.5".to_string())])),
        ("b", obj(vec![("c", txt("x"))])),
    ]);
    let w = v.deep_copy();
    assert!(v.deep_eq(&w));
    let other = obj(vec![("a", Value::Null)]);
    assert!(!v.deep_eq(&other));
}

#[test]
fn channel_rejects_wrong_field_shapes() {
    assert!(<Channel as Codec>::decode(&obj(vec![("messages", txt("oops"))])).is_none());
    assert!(<Channel as Codec>::decode(&obj(vec![
        ("messages", obj(vec![])),
        ("servers", txt("oops")),
    ]))
    .is_none());
    assert!(<Channel as Codec>::decode(&obj(vec![
        ("messages", obj(vec![])),
        ("servers", Value::Arr(vec![Value::Bool(true)])),
    ]))
    .is_none());
    assert!(<Channel as Codec>::decode(&obj(vec![
        ("messages", obj(vec![])),
        ("parameters", Value::Num("5".to_string())),
    ]))
    .is_none());
    assert!(<Channel as Codec>::decode(&txt("not an object")).is_none());
}

#[test]
fn operation_rejects_wrong_field_shapes() {
    assert!(<Operation as Codec>::decode(&obj(vec![
        ("action", txt("send")),
        ("tags", obj(vec![])),
    ]))
    .is_none());
    assert!(<Operation as Codec>::decode(&obj(vec![
        ("action", txt("send")),
        ("traits", Value::Arr(vec![txt("oops")])),
    ]))
    .is_none());
    assert!(<Operation as Codec>::decode(&Value::Null).is_none());
}

#[test]
fn channel_absent_optionals_stay_absent_when_reencoded() {
    let doc = obj(vec![("messages", obj(vec![]))]);
    let c = <Channel as Codec>::decode(&doc).expect("the channel decodes");
    assert!(c.address.is_none());
    assert!(c.servers.is_empty());
    assert!(c.parameters.is_empty());
    assert!(c.bindings.is_none());
    assert!(c.encode().deep_eq(&doc));
}
