use headless_chrome::protocol::runtime::methods::CallFunctionOn;
use headless_chrome::protocol::runtime::methods::CompileScript;
use headless_chrome::protocol::runtime::methods::Evaluate;
use headless_chrome::protocol::runtime::methods::RemoteObject2;
use headless_chrome::protocol::runtime::methods::RemoteObjectKind;
use headless_chrome::protocol::runtime::methods::RemoteObjectSubKind;
use headless_chrome::protocol::runtime::methods::RuntimeResult;
use headless_chrome::protocol::runtime::CallFrame;
use headless_chrome::protocol::runtime::ExceptionDetails;
use headless_chrome::protocol::runtime::ObjectPreview;
use headless_chrome::protocol::runtime::RemoteObject3;
use headless_chrome::protocol::runtime::RemoteObject4;
use headless_chrome::protocol::runtime::StackTrace;
use headless_chrome::protocol::Method;

fn exception(text: &str) -> ExceptionDetails {
    ExceptionDetails {
        exception_id: 1,
        text: text.to_string(),
        line_number: 2,
        column_number: 3,
        script_id: None,
        url: None,
        stack_trace: None,
        exception: None,
        execution: None,
    }
}

fn wire_object(kind: RemoteObjectKind) -> RemoteObject2 {
    RemoteObject2 {
        object_type: kind,
        subtype: None,
        description: Some("described".to_string()),
        class_name: None,
        value: Some(serde_json::Value::from(5)),
        unserializable_value: Some("NaN".to_string()),
        preview: Some(ObjectPreview {
            object_type: "object".to_string(),
            subtype: None,
            description: None,
            overflow: true,
            properties: Vec::new(),
        }),
    }
}

fn carried_over(object: &RemoteObject3) {
    assert_eq!(object.value, Some(serde_json::Value::from(5)));
    assert_eq!(object.unserializable_value.as_deref(), Some("NaN"));
    assert_eq!(object.description.as_deref(), Some("described"));
    let preview = object.preview.as_ref().expect("preview kept");
    assert_eq!(preview.object_type, "object");
    assert!(preview.overflow);
}

#[test]
fn runtime_commands_have_their_wire_names() {
    assert_eq!(<CallFunctionOn as Method>::NAME, "Runtime.callFunctionOn");
    assert_eq!(<Evaluate as Method>::NAME, "Runtime.evaluate");
    assert_eq!(<CompileScript as Method>::NAME, "Runtime.compileScript");
}

#[test]
fn a_result_without_exception_is_ok() {
    let reply = RuntimeResult { result: "7".to_string(), exception_details: None };
    assert_eq!(reply.into_result().expect("no exception"), "7");
}

#[test]
fn a_result_with_exception_is_the_exception() {
    let reply = RuntimeResult { result: 7u8, exception_details: Some(exception("Uncaught")) };
    let error = reply.into_result().expect_err("exception reported");
    assert_eq!(error.text, "Uncaught");
    assert_eq!(error.exception_id, 1);
    assert_eq!(error.line_number, 2);
    assert_eq!(error.column_number, 3);
}

#[test]
fn an_exception_prints_as_its_text() {
    assert_eq!(exception("Uncaught ReferenceError").to_string(), "Uncaught ReferenceError");
    assert_eq!(exception("").to_string(), "");
}

#[test]
fn an_object_moves_subtype_and_class_into_its_kind() {
    let mut object = wire_object(RemoteObjectKind::Object);
    object.subtype = Some(RemoteObjectSubKind::Array);
    object.class_name = Some("Array".to_string());
    let checked: RemoteObject3 = object.into();
    match &checked.kind {
        RemoteObject4::Object { subtype, class_name } => {
            assert!(matches!(subtype, RemoteObjectSubKind::Array));
            assert_eq!(class_name, "Array");
        },
        other => panic!("not an object: {:?}", other),
    }
    carried_over(&checked);
}

#[test]
fn every_other_kind_keeps_its_name_and_drops_subtype_and_class() {
    let kinds = [
        RemoteObjectKind::Function,
        RemoteObjectKind::Undefined,
        RemoteObjectKind::Str,
        RemoteObjectKind::Number,
        RemoteObjectKind::Boolean,
        RemoteObjectKind::Symbol,
        RemoteObjectKind::BigInt,
    ];
    for kind in kinds {
        let expected = format!("{:?}", kind);
        let mut object = wire_object(kind);
        object.subtype = Some(RemoteObjectSubKind::Error);
        object.class_name = Some("Ignored".to_string());
        let checked = object.into();
        assert_eq!(format!("{:?}", checked.kind), expected);
        carried_over(&checked);
    }
}

#[test]
fn an_object_without_value_decodes_to_none() {
    let mut object = wire_object(RemoteObjectKind::Undefined);
    object.value = None;
    let checked = object.into();
    let never = |_: serde_json::Value| -> Result<u8, ()> { panic!("decode must not be called") };
    assert_eq!(checked.into_value(never), Ok(None));
}

#[test]
fn a_value_is_decoded_by_the_decoder_given() {
    let mut object = wire_object(RemoteObjectKind::Str);
    object.value = Some(serde_json::Value::from("Mozilla/5.0"));
    let decoded = object.into().into_value(serde_json::from_value::<String>);
    assert_eq!(decoded.expect("a string"), Some("Mozilla/5.0".to_string()));
}

#[test]
fn a_value_of_the_wrong_type_is_the_decoder_s_error() {
    let object = wire_object(RemoteObjectKind::Number);
    let decoded = object.into().into_value(serde_json::from_value::<String>);
    assert!(decoded.expect_err("5 is no string").is_data());
}

#[test]
fn a_stack_trace_is_built_from_its_parts() {
    let frame = CallFrame {
        function_name: "f".to_string(),
        script_id: "12".to_string(),
        url: "https://example.org/a.js".to_string(),
        line_number: 1,
        column_number: 2,
    };
    let parent = StackTrace::new(Some("async".to_string()), Vec::new(), None);
    let trace = StackTrace::new(None, vec![frame], Some(Box::new(parent)));
    let printed = format!("{:?}", trace);
    assert!(printed.contains("function_name: \"f\""));
    assert!(printed.contains("description: Some(\"async\")"));
}

#[test]
fn an_object_must_name_its_subtype_and_class_to_be_converted() {
    let mut object = wire_object(RemoteObjectKind::Object);
    assert!(!object.is_convertible());
    object.subtype = Some(RemoteObjectSubKind::Date);
    assert!(!object.is_convertible());
    object.class_name = Some("Date".to_string());
    assert!(object.is_convertible());
    object.subtype = None;
    assert!(!object.is_convertible());
    assert!(wire_object(RemoteObjectKind::Undefined).is_convertible());
    assert!(wire_object(RemoteObjectKind::BigInt).is_convertible());
}
