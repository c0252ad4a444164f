//! Dispatch tests: request lines in, response lines out, against the
//! in-memory backends. The typed params that the application derives for a
//! call are given here by hand, as the value the line's params stand for.

use jsonrpc_gpio::dispatch::{
    answer_call, begin_line, check_pin, finish_line, esp_ok, execute, known_method, reply_for, EspDirection,
    EspGpio, EspPull, GpioBackend, GpioError, LedBackend, LineStep, MockGpio, MockLed, Outcome,
    MAX_PIN, SERVER_ERROR,
};
use jsonrpc_gpio::protocol::{PinMode, Request};
use jsonrpc_gpio::rpc::{render, Reply, ResultValue, RpcError, RpcId};
use serde_json::Value;

/// One line through the library, as the server handles it. `typed` is what
/// the line's params become once typed for its method (`None`: they do not fit).
fn process_line(line: &[u8], typed: Option<Request>, gpio: &mut MockGpio, led: &mut MockLed) -> Option<String> {
    finish_line(begin_line(line), typed, gpio, led)
}

fn call(line: &[u8], typed: Option<Request>, gpio: &mut MockGpio) -> Value {
    let mut led = MockLed::new();
    let s = process_line(line, typed, gpio, &mut led).expect("request produces a response");
    serde_json::from_str(&s).expect("response is valid JSON")
}

fn object(key: &str, value: Value) -> Value {
    let mut m = serde_json::Map::new();
    m.insert(key.to_string(), value);
    Value::Object(m)
}

#[test]
fn led_set_drives_the_led_backend_and_acks() {
    let mut gpio = MockGpio::new();
    let mut led = MockLed::new();
    let resp: Value = serde_json::from_str(
        &process_line(
            br#"{"jsonrpc":"2.0","id":1,"method":"led_set","params":{"r":0,"g":16,"b":0}}"#,
            Some(Request::LedSet { r: 0, g: 16, b: 0 }),
            &mut gpio,
            &mut led,
        )
        .unwrap(),
    )
    .unwrap();
    assert_eq!(resp["result"], object("ok", Value::Bool(true)));
    assert_eq!(led.last(), Some((0, 16, 0)));
}

#[test]
fn led_set_zero_is_off() {
    let mut gpio = MockGpio::new();
    let mut led = MockLed::new();
    process_line(
        br#"{"jsonrpc":"2.0","id":1,"method":"led_set","params":{"r":0,"g":0,"b":0}}"#,
        Some(Request::LedSet { r: 0, g: 0, b: 0 }),
        &mut gpio,
        &mut led,
    )
    .unwrap();
    assert_eq!(led.last(), Some((0, 0, 0)));
}

#[test]
fn write_then_read_returns_stored_level() {
    let mut gpio = MockGpio::new();
    call(
        br#"{"jsonrpc":"2.0","id":0,"method":"gpio_config","params":{"pin":2,"mode":"output"}}"#,
        Some(Request::GpioConfig { pin: 2, mode: PinMode::Output }),
        &mut gpio,
    );
    call(
        br#"{"jsonrpc":"2.0","id":1,"method":"gpio_write","params":{"pin":2,"level":1}}"#,
        Some(Request::GpioWrite { pin: 2, level: 1 }),
        &mut gpio,
    );
    let resp = call(
        br#"{"jsonrpc":"2.0","id":2,"method":"gpio_read","params":{"pin":2}}"#,
        Some(Request::GpioRead { pin: 2 }),
        &mut gpio,
    );
    assert_eq!(resp["result"], object("level", Value::from(1)));
    assert_eq!(resp["id"], Value::from(2));
    assert!(resp.get("error").is_none());
}

#[test]
fn read_of_unconfigured_pin_returns_error() {
    let mut gpio = MockGpio::new();
    let resp = call(
        br#"{"jsonrpc":"2.0","id":9,"method":"gpio_read","params":{"pin":7}}"#,
        Some(Request::GpioRead { pin: 7 }),
        &mut gpio,
    );
    assert!(resp.get("error").is_some(), "expected error for unconfigured pin read");
    assert!(resp.get("result").is_none());
}

#[test]
fn write_normalises_level_to_binary() {
    let mut gpio = MockGpio::new();
    call(
        br#"{"jsonrpc":"2.0","id":1,"method":"gpio_config","params":{"pin":3,"mode":"output"}}"#,
        Some(Request::GpioConfig { pin: 3, mode: PinMode::Output }),
        &mut gpio,
    );
    call(
        br#"{"jsonrpc":"2.0","id":2,"method":"gpio_write","params":{"pin":3,"level":2}}"#,
        Some(Request::GpioWrite { pin: 3, level: 2 }),
        &mut gpio,
    );
    let resp = call(
        br#"{"jsonrpc":"2.0","id":3,"method":"gpio_read","params":{"pin":3}}"#,
        Some(Request::GpioRead { pin: 3 }),
        &mut gpio,
    );
    assert_eq!(resp["result"]["level"], Value::from(1), "level=2 must normalise to 1");
}

#[test]
fn write_to_unconfigured_pin_returns_error() {
    let mut gpio = MockGpio::new();
    let resp = call(
        br#"{"jsonrpc":"2.0","id":10,"method":"gpio_write","params":{"pin":5,"level":1}}"#,
        Some(Request::GpioWrite { pin: 5, level: 1 }),
        &mut gpio,
    );
    assert!(resp.get("error").is_some(), "expected error for unconfigured pin write");
    assert!(resp.get("result").is_none());
}

#[test]
fn config_records_mode_and_acks() {
    let mut gpio = MockGpio::new();
    let resp = call(
        br#"{"jsonrpc":"2.0","id":3,"method":"gpio_config","params":{"pin":4,"mode":"input_pullup"}}"#,
        Some(Request::GpioConfig { pin: 4, mode: PinMode::InputPullup }),
        &mut gpio,
    );
    assert_eq!(resp["result"], object("ok", Value::Bool(true)));
    assert_eq!(gpio.mode_of(4), Some(PinMode::InputPullup));
}

#[test]
fn out_of_range_pin_is_invalid_params() {
    let mut gpio = MockGpio::new();
    let resp = call(
        br#"{"jsonrpc":"2.0","id":5,"method":"gpio_write","params":{"pin":200,"level":1}}"#,
        Some(Request::GpioWrite { pin: 200, level: 1 }),
        &mut gpio,
    );
    assert_eq!(resp["error"]["code"], Value::from(-32602));
    assert_eq!(resp["id"], Value::from(5));
    assert!(resp.get("result").is_none());
}

#[test]
fn malformed_line_is_parse_error_with_null_id() {
    let mut gpio = MockGpio::new();
    let resp = call(b"{ this is not json", None, &mut gpio);
    assert_eq!(resp["error"]["code"], Value::from(-32700));
    assert_eq!(resp["id"], Value::Null);
}

#[test]
fn notification_returns_no_response() {
    let mut gpio = MockGpio::new();
    let mut led = MockLed::new();
    let result = process_line(
        br#"{"jsonrpc":"2.0","method":"gpio_read","params":{"pin":1}}"#,
        Some(Request::GpioRead { pin: 1 }),
        &mut gpio,
        &mut led,
    );
    assert!(result.is_none(), "notifications must produce no response");
}

#[test]
fn unknown_method_returns_method_not_found_with_id() {
    let mut gpio = MockGpio::new();
    let mut led = MockLed::new();
    let response = process_line(
        br#"{"jsonrpc":"2.0","id":42,"method":"gpio_explode","params":{}}"#,
        None,
        &mut gpio,
        &mut led,
    )
    .expect("unknown method produces a response");
    let resp: Value = serde_json::from_str(&response).expect("valid JSON");
    assert_eq!(resp["error"]["code"], Value::from(-32601));
    assert_eq!(resp["id"], Value::from(42));
}

#[test]
fn known_method_with_bad_params_is_invalid_params_not_method_not_found() {
    let mut gpio = MockGpio::new();
    let resp = call(
        br#"{"jsonrpc":"2.0","id":1,"method":"gpio_write","params":{"pin":2}}"#,
        None,
        &mut gpio,
    );
    assert_eq!(resp["error"]["code"], Value::from(-32602), "bad params on a known method -> invalid params");
    assert_eq!(resp["id"], Value::from(1));
}

#[test]
fn string_id_is_echoed_back() {
    let mut gpio = MockGpio::new();
    call(
        br#"{"jsonrpc":"2.0","id":0,"method":"gpio_config","params":{"pin":1,"mode":"input"}}"#,
        Some(Request::GpioConfig { pin: 1, mode: PinMode::Input }),
        &mut gpio,
    );
    let resp = call(
        br#"{"jsonrpc":"2.0","id":"req-42","method":"gpio_read","params":{"pin":1}}"#,
        Some(Request::GpioRead { pin: 1 }),
        &mut gpio,
    );
    assert_eq!(resp["id"], Value::from("req-42"));
}

// ---- further scenarios ----

#[test]
fn bad_params_leave_the_backends_untouched() {
    let mut gpio = MockGpio::new();
    let mut led = MockLed::new();
    assert_eq!(gpio.config(2, PinMode::Output), Ok(()));
    let r = answer_call(None, &mut gpio, &mut led);
    assert_eq!(r, Reply::Failure(RpcError::invalid_params()));
    assert_eq!(gpio.read(2), Ok(0));
    assert_eq!(gpio.mode_of(2), Some(PinMode::Output));
    assert_eq!(led.last(), None);
}

#[test]
fn begin_line_classifies_each_kind_of_line() {
    match begin_line(br#"{"jsonrpc":"2.0","id":7,"method":"gpio_read","params":{"pin":1}}"#) {
        LineStep::Call { id, method, params } => {
            assert_eq!(id, RpcId::Num(7));
            assert_eq!(method, "gpio_read");
            assert!(params.is_some());
        }
        _ => panic!("expected a call"),
    }
    match begin_line(br#"{"jsonrpc":"2.0","id":7,"method":"led_set"}"#) {
        LineStep::Call { method, params, .. } => {
            assert_eq!(method, "led_set");
            assert!(params.is_none());
        }
        _ => panic!("expected a call"),
    }
    match begin_line(b"[1,2") {
        LineStep::Answer { id, error } => {
            assert_eq!(id, RpcId::Null);
            assert_eq!(error, RpcError::parse_error());
        }
        _ => panic!("expected a parse error"),
    }
    assert!(matches!(begin_line(br#"{"jsonrpc":"2.0","method":"nope"}"#), LineStep::Ignore));
}

#[test]
fn inbound_response_object_is_invalid_request_with_its_id() {
    let mut gpio = MockGpio::new();
    let resp = call(br#"{"jsonrpc":"2.0","result":1,"id":3}"#, None, &mut gpio);
    assert_eq!(resp["error"]["code"], Value::from(-32600));
    assert_eq!(resp["error"]["message"], Value::from("Invalid request"));
    assert_eq!(resp["id"], Value::from(3));
    let resp = call(
        br#"{"jsonrpc":"2.0","error":{"code":1,"message":"x"},"id":"e"}"#,
        None,
        &mut gpio,
    );
    assert_eq!(resp["error"]["code"], Value::from(-32600));
    assert_eq!(resp["id"], Value::from("e"));
}

#[test]
fn explicit_null_id_is_answered_with_null_id() {
    let mut gpio = MockGpio::new();
    let resp = call(
        br#"{"jsonrpc":"2.0","id":null,"method":"gpio_read","params":{"pin":7}}"#,
        Some(Request::GpioRead { pin: 7 }),
        &mut gpio,
    );
    assert_eq!(resp["id"], Value::Null);
    assert_eq!(resp["error"]["code"], Value::from(SERVER_ERROR));
}

#[test]
fn missing_version_member_is_a_parse_error() {
    let mut gpio = MockGpio::new();
    let resp = call(br#"{"id":1,"method":"gpio_read","params":{"pin":1}}"#, None, &mut gpio);
    assert_eq!(resp["error"]["code"], Value::from(-32700));
    assert_eq!(resp["error"]["message"], Value::from("Parse error"));
}

#[test]
fn unknown_method_notification_gets_no_response() {
    let mut gpio = MockGpio::new();
    let mut led = MockLed::new();
    assert!(process_line(br#"{"jsonrpc":"2.0","method":"gpio_explode"}"#, None, &mut gpio, &mut led).is_none());
}

#[test]
fn backend_failure_is_server_error_with_its_message() {
    let mut gpio = MockGpio::new();
    let resp = call(
        br#"{"jsonrpc":"2.0","id":4,"method":"gpio_write","params":{"pin":6,"level":1}}"#,
        Some(Request::GpioWrite { pin: 6, level: 1 }),
        &mut gpio,
    );
    assert_eq!(resp["error"]["code"], Value::from(-32000));
    assert_eq!(resp["error"]["message"], Value::from("pin not configured"));
    assert!(resp["error"].get("data").is_none());
}

#[test]
fn invalid_pin_message_names_the_pin() {
    let e = GpioError::InvalidPin(200).to_rpc_error();
    assert_eq!(e.code, -32602);
    assert_eq!(e.message, "invalid pin: 200");
    let e = GpioError::InvalidPin(49).to_rpc_error();
    assert_eq!(e.message, "invalid pin: 49");
    let e = GpioError::Backend("boom".to_string()).to_rpc_error();
    assert_eq!(e, RpcError { code: SERVER_ERROR, message: "boom".to_string() });
}

#[test]
fn standard_error_objects() {
    assert_eq!(RpcError::parse_error(), RpcError { code: -32700, message: "Parse error".into() });
    assert_eq!(RpcError::invalid_request(), RpcError { code: -32600, message: "Invalid request".into() });
    assert_eq!(RpcError::method_not_found(), RpcError { code: -32601, message: "Method not found".into() });
    assert_eq!(RpcError::invalid_params(), RpcError { code: -32602, message: "Invalid params".into() });
}

#[test]
fn known_methods_are_exactly_four() {
    for m in ["gpio_config", "gpio_write", "gpio_read", "led_set"] {
        assert!(known_method(&m.to_string()), "{m}");
    }
    for m in ["", "gpio", "gpio_explode", "GPIO_READ", "led_set "] {
        assert!(!known_method(&m.to_string()), "{m}");
    }
}

#[test]
fn pin_range_is_zero_to_max_pin() {
    assert!(check_pin(0).is_ok());
    assert!(check_pin(MAX_PIN).is_ok());
    assert_eq!(check_pin(MAX_PIN + 1), Err(GpioError::InvalidPin(49)));
}

#[test]
fn mock_gpio_write_read_and_other_pins() {
    let mut g = MockGpio::new();
    assert_eq!(g.mode_of(2), None);
    assert_eq!(g.config(2, PinMode::Output), Ok(()));
    assert_eq!(g.config(3, PinMode::Input), Ok(()));
    assert_eq!(g.read(2), Ok(0), "configured but never written reads 0");
    assert_eq!(g.write(2, 255), Ok(()));
    assert_eq!(g.read(2), Ok(1));
    assert_eq!(g.read(3), Ok(0), "a write touches only its own pin");
    assert_eq!(g.write(2, 0), Ok(()));
    assert_eq!(g.read(2), Ok(0));
    assert_eq!(g.config(2, PinMode::InputPullup), Ok(()));
    assert_eq!(g.mode_of(2), Some(PinMode::InputPullup));
    assert_eq!(g.config(60, PinMode::Output), Err(GpioError::InvalidPin(60)));
    assert_eq!(g.read(60), Err(GpioError::InvalidPin(60)));
    assert_eq!(g.write(9, 1), Err(GpioError::Backend("pin not configured".into())));
}

#[test]
fn execute_reports_a_level_only_for_reads() {
    let mut g = MockGpio::new();
    let mut led = MockLed::default();
    assert_eq!(execute(Request::GpioConfig { pin: 1, mode: PinMode::Output }, &mut g, &mut led), Ok(Outcome::Done));
    assert_eq!(execute(Request::GpioWrite { pin: 1, level: 1 }, &mut g, &mut led), Ok(Outcome::Done));
    assert_eq!(execute(Request::GpioRead { pin: 1 }, &mut g, &mut led), Ok(Outcome::Level(1)));
    assert_eq!(execute(Request::LedSet { r: 1, g: 2, b: 3 }, &mut g, &mut led), Ok(Outcome::Done));
    assert_eq!(led.last(), Some((1, 2, 3)));
    assert_eq!(led.set_rgb(9, 9, 9), Ok(()));
    assert_eq!(led.last(), Some((9, 9, 9)));
}

#[test]
fn replies_for_outcomes() {
    assert_eq!(reply_for(Ok(Outcome::Done)), Reply::Success { key: "ok".into(), value: ResultValue::Flag(true) });
    assert_eq!(reply_for(Ok(Outcome::Level(0))), Reply::Success { key: "level".into(), value: ResultValue::Number(0) });
    assert_eq!(
        reply_for(Err(GpioError::InvalidPin(50))),
        Reply::Failure(RpcError { code: -32602, message: "invalid pin: 50".into() })
    );
}

#[test]
fn rendered_responses_are_json_rpc_objects() {
    let s = render(&RpcId::Str("a\"b".into()), &Reply::Success { key: "ok".into(), value: ResultValue::Flag(true) });
    assert!(!s.contains('\n'));
    let v: Value = serde_json::from_str(&s).unwrap();
    assert_eq!(v["jsonrpc"], Value::from("2.0"));
    assert_eq!(v["id"], Value::from("a\"b"));
    assert_eq!(v["result"], object("ok", Value::Bool(true)));
    assert!(v.get("error").is_none());

    let s = render(&RpcId::Num(-3), &Reply::Failure(RpcError { code: -32000, message: "x".into() }));
    let v: Value = serde_json::from_str(&s).unwrap();
    assert_eq!(v["id"], Value::from(-3));
    assert_eq!(v["error"]["code"], Value::from(-32000));
    assert_eq!(v["error"]["message"], Value::from("x"));
    assert!(v.get("result").is_none());
}

#[test]
fn esp_status_codes() {
    assert_eq!(esp_ok(0), Ok(()));
    assert_eq!(esp_ok(258), Err(GpioError::Backend("esp_err_t 258".into())));
    assert_eq!(esp_ok(-1), Err(GpioError::Backend("esp_err_t -1".into())));
}

#[test]
fn esp_gpio_plans() {
    let g = EspGpio::new();
    assert_eq!(g, EspGpio::default());
    assert_eq!(g.config_plan(4, PinMode::Output), Ok((EspDirection::InputOutput, EspPull::Floating)));
    assert_eq!(g.config_plan(4, PinMode::Input), Ok((EspDirection::Input, EspPull::Floating)));
    assert_eq!(g.config_plan(4, PinMode::InputPullup), Ok((EspDirection::Input, EspPull::PullUpOnly)));
    assert_eq!(g.config_plan(49, PinMode::Input), Err(GpioError::InvalidPin(49)));
    assert_eq!(g.write_plan(4, 7), Ok(1));
    assert_eq!(g.write_plan(4, 0), Ok(0));
    assert_eq!(g.write_plan(200, 1), Err(GpioError::InvalidPin(200)));
    assert_eq!(g.read_plan(48), Ok(()));
    assert_eq!(g.level_from_raw(0), 0);
    assert_eq!(g.level_from_raw(-5), 1);
    assert_eq!(g.read_result(4, 7), Ok(1));
    assert_eq!(g.read_result(4, 0), Ok(0));
    assert_eq!(g.read_result(49, 1), Err(GpioError::InvalidPin(49)));
}

#[test]
fn device_read_agrees_with_mock_read() {
    let esp = EspGpio::new();
    for level in [0u8, 1, 2, 255] {
        let mut mock = MockGpio::new();
        assert_eq!(mock.config(5, PinMode::Output), Ok(()));
        assert_eq!(mock.write(5, level), Ok(()));
        let driven = if level != 0 { 1 } else { 0 };
        assert_eq!(esp.read_result(5, driven), mock.read(5));
    }
}
