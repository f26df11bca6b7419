use messenger_core::dto::{
    deserialize_string_or_number, LoginVerifyRequest, NotStringOrNumber, StringOrNumber,
};
use serde_json::Value;

fn visited(value: &Value) -> StringOrNumber {
    match value {
        Value::String(s) => StringOrNumber::Text(s.clone()),
        Value::Number(n) => {
            if let Some(n) = n.as_u64() {
                StringOrNumber::Unsigned(n)
            } else if let Some(n) = n.as_i64() {
                StringOrNumber::Signed(n)
            } else {
                StringOrNumber::Fraction(n.as_f64().unwrap().to_string())
            }
        }
        _ => StringOrNumber::Other,
    }
}

fn login_verify_request(json: &str) -> Result<LoginVerifyRequest, NotStringOrNumber> {
    let value: Value = serde_json::from_str(json).unwrap();
    Ok(LoginVerifyRequest {
        phone: deserialize_string_or_number(visited(&value["phone"]))?,
        code: deserialize_string_or_number(visited(&value["code"]))?,
    })
}

#[test]
fn test_flexible_deserialization() {
    // Test with string values
    let json_str = r#"
        {
            "phone": "+573001234567",
            "code": "123456"
        }
        "#;
    let req1 = login_verify_request(json_str).unwrap();
    assert_eq!(req1.phone, "+573001234567");
    assert_eq!(req1.code, "123456");

    // Test with number values
    let json_num = r#"
        {
            "phone": 573001234567,
            "code": 123456
        }
        "#;
    let req2 = login_verify_request(json_num).unwrap();
    assert_eq!(req2.phone, "573001234567");
    assert_eq!(req2.code, "123456");
}

#[test]
fn negative_and_extreme_numbers_are_written_out() {
    for n in [0i64, 7, -7, 10, -10, 99, 100, i64::MAX, i64::MIN] {
        assert_eq!(
            deserialize_string_or_number(StringOrNumber::Signed(n)).unwrap(),
            n.to_string()
        );
    }
    for n in [0u64, 9, 10, 1_000_000, u64::MAX] {
        assert_eq!(
            deserialize_string_or_number(StringOrNumber::Unsigned(n)).unwrap(),
            n.to_string()
        );
    }
}

#[test]
fn fractions_are_taken_as_written() {
    let req = login_verify_request(r#"{"phone": 1.5, "code": -3}"#).unwrap();
    assert_eq!(req.phone, "1.5");
    assert_eq!(req.code, "-3");
}

#[test]
fn other_values_are_refused() {
    assert_eq!(
        login_verify_request(r#"{"phone": true, "code": 1}"#).unwrap_err(),
        NotStringOrNumber
    );
    assert_eq!(
        login_verify_request(r#"{"phone": "1", "code": null}"#).unwrap_err(),
        NotStringOrNumber
    );
    assert_eq!(
        login_verify_request(r#"{"phone": [1], "code": 1}"#).unwrap_err(),
        NotStringOrNumber
    );
}

#[test]
fn a_number_and_its_digits_read_alike() {
    assert_eq!(
        deserialize_string_or_number(StringOrNumber::Unsigned(4711)),
        deserialize_string_or_number(StringOrNumber::Text("4711".to_string()))
    );
}

#[test]
fn numbers_start_with_no_zero() {
    let req = login_verify_request(r#"{"phone": "0042", "code": 42}"#).unwrap();
    assert_eq!(req.phone, "0042");
    assert_eq!(req.code, "42");
    assert_eq!(
        deserialize_string_or_number(StringOrNumber::Signed(-42)),
        deserialize_string_or_number(StringOrNumber::Text("-42".to_string()))
    );
}
