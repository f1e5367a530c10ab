use headless_chrome::dispatch::read_reply;
use headless_chrome::wire::CallError;

fn as_number(value: serde_json::Value) -> Result<u64, serde_json::Error> {
    serde_json::from_value::<u64>(value)
}

#[test]
fn a_result_of_the_declared_shape_is_decoded() {
    assert_eq!(read_reply(Ok(serde_json::Value::from(12)), as_number), Ok(12));
}

#[test]
fn a_result_of_another_shape_is_a_decode_error() {
    assert_eq!(
        read_reply(Ok(serde_json::Value::from("twelve")), as_number),
        Err(CallError::DecodeError)
    );
}

#[test]
fn a_failed_call_keeps_its_error_and_is_not_decoded() {
    let never = |_: serde_json::Value| -> Result<u64, ()> { panic!("decode must not be called") };
    assert_eq!(read_reply(Err(CallError::CallTimeout), never), Err(CallError::CallTimeout));
    assert_eq!(read_reply(Err(CallError::TransportClosed), never), Err(CallError::TransportClosed));
    assert_eq!(
        read_reply(Err(CallError::ProtocolError { code: -1, message: "boom".to_string() }), never),
        Err(CallError::ProtocolError { code: -1, message: "boom".to_string() })
    );
    assert_eq!(read_reply(Err(CallError::DecodeError), never), Err(CallError::DecodeError));
}
