use random_service::double::Double;
use random_service::request::{decode, decode_value, DecodeError, Distribution, Field, RngRequest};

fn double(x: f64) -> Double {
    Double { bits: x.to_bits() }
}

fn object(members: Vec<(&str, serde_json::Value)>) -> serde_json::Value {
    let mut map = serde_json::Map::new();
    for (key, value) in members {
        map.insert(key.to_string(), value);
    }
    serde_json::Value::Object(map)
}

#[test]
fn decodes_a_uniform_request() {
    let body = br#"{"distribution":"uniform","parameters":{"start":0,"end":10}}"#;
    assert_eq!(decode(body), Ok(RngRequest::Uniform { start: 0, end: 10 }));
}

#[test]
fn decodes_the_bounds_of_the_integers() {
    let body = br#"{"distribution":"uniform","parameters":{"start":-2147483648,"end":2147483647}}"#;
    assert_eq!(decode(body), Ok(RngRequest::Uniform { start: i32::MIN, end: i32::MAX }));
}

#[test]
fn decodes_a_normal_request() {
    let body = br#"{"distribution":"normal","parameters":{"mean":0.0,"std_dev":1.0}}"#;
    assert_eq!(decode(body), Ok(RngRequest::Normal { mean: double(0.0), std_dev: double(1.0) }));
}

#[test]
fn decodes_a_bernoulli_request() {
    let body = br#"{"distribution":"bernoulli","parameters":{"p":0.5}}"#;
    assert_eq!(decode(body), Ok(RngRequest::Bernoulli { p: double(0.5) }));
}

#[test]
fn a_number_written_as_an_integer_is_a_double_too() {
    let body = br#"{"distribution":"normal","parameters":{"mean":-3,"std_dev":2}}"#;
    assert_eq!(decode(body), Ok(RngRequest::Normal { mean: double(-3.0), std_dev: double(2.0) }));
    let body = br#"{"distribution":"bernoulli","parameters":{"p":1}}"#;
    assert_eq!(decode(body), Ok(RngRequest::Bernoulli { p: double(1.0) }));
}

#[test]
fn doubles_are_read_exactly() {
    let body = br#"{"distribution":"normal","parameters":{"mean":-1.5e-7,"std_dev":123456.789}}"#;
    assert_eq!(
        decode(body),
        Ok(RngRequest::Normal { mean: double(-1.5e-7), std_dev: double(123456.789) })
    );
}

#[test]
fn the_decoder_does_not_judge_the_parameters() {
    let body = br#"{"distribution":"uniform","parameters":{"start":10,"end":0}}"#;
    assert_eq!(decode(body), Ok(RngRequest::Uniform { start: 10, end: 0 }));
    let body = br#"{"distribution":"normal","parameters":{"mean":0.0,"std_dev":-1.0}}"#;
    assert_eq!(decode(body), Ok(RngRequest::Normal { mean: double(0.0), std_dev: double(-1.0) }));
    let body = br#"{"distribution":"bernoulli","parameters":{"p":7.5}}"#;
    assert_eq!(decode(body), Ok(RngRequest::Bernoulli { p: double(7.5) }));
}

#[test]
fn the_order_of_the_keys_does_not_matter() {
    let body = br#"{"parameters":{"end":10,"start":0},"distribution":"uniform"}"#;
    assert_eq!(decode(body), Ok(RngRequest::Uniform { start: 0, end: 10 }));
}

#[test]
fn keys_that_are_not_asked_for_are_passed_over() {
    let body = br#"{"id":7,"distribution":"bernoulli","parameters":{"p":0.25,"start":"x","q":null}}"#;
    assert_eq!(decode(body), Ok(RngRequest::Bernoulli { p: double(0.25) }));
}

#[test]
fn white_space_is_allowed() {
    let body = b" {\n \"distribution\" : \"uniform\" ,\n \"parameters\" : { \"start\" : 1 , \"end\" : 2 }\n}\n";
    assert_eq!(decode(body), Ok(RngRequest::Uniform { start: 1, end: 2 }));
}

#[test]
fn malformed_json_is_a_syntax_error_with_the_parsers_words() {
    for body in [&b""[..], b"{", b"not json", b"{\"distribution\":}", b"{} {}", b"\xff\xfe"] {
        let expected = serde_json::from_slice::<serde_json::Value>(body).unwrap_err().to_string();
        assert!(!expected.is_empty());
        assert_eq!(decode(body), Err(DecodeError::Syntax(expected)));
    }
}

#[test]
fn a_document_that_is_no_object_is_refused() {
    for body in [&b"null"[..], b"true", b"5", b"1.5", b"\"uniform\"", b"[]", b"[{\"distribution\":\"uniform\"}]"] {
        assert_eq!(decode(body), Err(DecodeError::NotAnObject));
    }
}

#[test]
fn the_distribution_has_to_be_there() {
    assert_eq!(decode(b"{}"), Err(DecodeError::Missing(Field::Distribution)));
    let body = br#"{"parameters":{"start":0,"end":10}}"#;
    assert_eq!(decode(body), Err(DecodeError::Missing(Field::Distribution)));
    let body = br#"{"Distribution":"uniform","parameters":{"start":0,"end":10}}"#;
    assert_eq!(decode(body), Err(DecodeError::Missing(Field::Distribution)));
}

#[test]
fn the_distribution_has_to_be_a_string() {
    for body in [
        &br#"{"distribution":5}"#[..],
        br#"{"distribution":null}"#,
        br#"{"distribution":["uniform"]}"#,
        br#"{"distribution":{"uniform":1},"parameters":{}}"#,
    ] {
        assert_eq!(decode(body), Err(DecodeError::Mismatch(Field::Distribution)));
    }
}

#[test]
fn unknown_distribution_is_refused_with_its_name() {
    assert_eq!(
        decode(br#"{"distribution":"unknown"}"#),
        Err(DecodeError::UnknownDistribution("unknown".to_string()))
    );
}

#[test]
fn names_of_distributions_are_lower_case() {
    for name in ["Uniform", "UNIFORM", "Normal", "Bernoulli", "uniform ", "", "gauss"] {
        let body = format!("{{\"distribution\":\"{}\",\"parameters\":{{\"start\":0,\"end\":10}}}}", name);
        assert_eq!(
            decode(body.as_bytes()),
            Err(DecodeError::UnknownDistribution(name.to_string()))
        );
    }
}

#[test]
fn the_name_is_looked_at_before_the_parameters() {
    let body = br#"{"distribution":"poisson","parameters":5}"#;
    assert_eq!(decode(body), Err(DecodeError::UnknownDistribution("poisson".to_string())));
}

#[test]
fn the_parameters_have_to_be_there() {
    for name in ["uniform", "normal", "bernoulli"] {
        let body = format!("{{\"distribution\":\"{}\"}}", name);
        assert_eq!(decode(body.as_bytes()), Err(DecodeError::Missing(Field::Parameters)));
    }
}

#[test]
fn the_parameters_have_to_be_an_object() {
    for parameters in ["null", "5", "\"x\"", "[0,10]", "true"] {
        let body = format!("{{\"distribution\":\"uniform\",\"parameters\":{}}}", parameters);
        assert_eq!(decode(body.as_bytes()), Err(DecodeError::Mismatch(Field::Parameters)));
    }
}

#[test]
fn each_parameter_has_to_be_there() {
    let cases = [
        (r#"{"distribution":"uniform","parameters":{}}"#, Field::Start),
        (r#"{"distribution":"uniform","parameters":{"end":10}}"#, Field::Start),
        (r#"{"distribution":"uniform","parameters":{"start":0}}"#, Field::End),
        (r#"{"distribution":"normal","parameters":{}}"#, Field::Mean),
        (r#"{"distribution":"normal","parameters":{"std_dev":1.0}}"#, Field::Mean),
        (r#"{"distribution":"normal","parameters":{"mean":0.0}}"#, Field::StdDev),
        (r#"{"distribution":"bernoulli","parameters":{}}"#, Field::P),
        (r#"{"distribution":"bernoulli","parameters":{"mean":0.0,"std_dev":1.0}}"#, Field::P),
    ];
    for (body, field) in cases {
        assert_eq!(decode(body.as_bytes()), Err(DecodeError::Missing(field)), "{}", body);
    }
}

#[test]
fn each_parameter_has_to_be_of_its_type() {
    let cases = [
        (r#"{"distribution":"uniform","parameters":{"start":"0","end":10}}"#, Field::Start),
        (r#"{"distribution":"uniform","parameters":{"start":0.5,"end":10}}"#, Field::Start),
        (r#"{"distribution":"uniform","parameters":{"start":0.0,"end":10}}"#, Field::Start),
        (r#"{"distribution":"uniform","parameters":{"start":0,"end":null}}"#, Field::End),
        (r#"{"distribution":"uniform","parameters":{"start":0,"end":[10]}}"#, Field::End),
        (r#"{"distribution":"normal","parameters":{"mean":"0.0","std_dev":1.0}}"#, Field::Mean),
        (r#"{"distribution":"normal","parameters":{"mean":0.0,"std_dev":true}}"#, Field::StdDev),
        (r#"{"distribution":"bernoulli","parameters":{"p":"half"}}"#, Field::P),
        (r#"{"distribution":"bernoulli","parameters":{"p":{"p":0.5}}}"#, Field::P),
    ];
    for (body, field) in cases {
        assert_eq!(decode(body.as_bytes()), Err(DecodeError::Mismatch(field)), "{}", body);
    }
}

#[test]
fn an_integer_has_to_fit_32_bits() {
    let cases = [
        (r#"{"distribution":"uniform","parameters":{"start":2147483648,"end":10}}"#, Field::Start),
        (r#"{"distribution":"uniform","parameters":{"start":-2147483649,"end":10}}"#, Field::Start),
        (r#"{"distribution":"uniform","parameters":{"start":0,"end":9223372036854775807}}"#, Field::End),
        (r#"{"distribution":"uniform","parameters":{"start":0,"end":18446744073709551615}}"#, Field::End),
        (r#"{"distribution":"uniform","parameters":{"start":0,"end":1e3}}"#, Field::End),
    ];
    for (body, field) in cases {
        assert_eq!(decode(body.as_bytes()), Err(DecodeError::Mismatch(field)), "{}", body);
    }
}

#[test]
fn the_first_parameter_that_fails_decides() {
    let body = br#"{"distribution":"uniform","parameters":{"start":"x"}}"#;
    assert_eq!(decode(body), Err(DecodeError::Mismatch(Field::Start)));
    let body = br#"{"distribution":"normal","parameters":{"std_dev":"x"}}"#;
    assert_eq!(decode(body), Err(DecodeError::Missing(Field::Mean)));
}

#[test]
fn decodes_a_document_built_by_hand() {
    let document = object(vec![
        ("distribution", serde_json::Value::from("uniform")),
        (
            "parameters",
            object(vec![("start", serde_json::Value::from(-5)), ("end", serde_json::Value::from(5))]),
        ),
    ]);
    assert_eq!(decode_value(&document), Ok(RngRequest::Uniform { start: -5, end: 5 }));
    let document = object(vec![
        ("distribution", serde_json::Value::from("bernoulli")),
        ("parameters", object(vec![("p", serde_json::Value::from(0.125))])),
    ]);
    assert_eq!(decode_value(&document), Ok(RngRequest::Bernoulli { p: double(0.125) }));
    assert_eq!(decode_value(&serde_json::Value::Null), Err(DecodeError::NotAnObject));
    assert_eq!(
        decode_value(&object(vec![("distribution", serde_json::Value::Bool(true))])),
        Err(DecodeError::Mismatch(Field::Distribution))
    );
}

#[test]
fn messages_say_what_is_wrong() {
    assert_eq!(DecodeError::Syntax("expected value at line 1 column 1".to_string()).message(), "expected value at line 1 column 1");
    assert_eq!(DecodeError::Syntax(String::new()).message(), "malformed JSON");
    assert_eq!(DecodeError::NotAnObject.message(), "expected a JSON object");
    assert_eq!(DecodeError::Missing(Field::Parameters).message(), "missing field `parameters`");
    assert_eq!(DecodeError::Missing(Field::StdDev).message(), "missing field `std_dev`");
    assert_eq!(
        DecodeError::Mismatch(Field::Distribution).message(),
        "invalid field `distribution`: expected a string"
    );
    assert_eq!(
        DecodeError::Mismatch(Field::Parameters).message(),
        "invalid field `parameters`: expected an object"
    );
    assert_eq!(
        DecodeError::Mismatch(Field::Start).message(),
        "invalid field `start`: expected a 32-bit integer"
    );
    assert_eq!(
        DecodeError::Mismatch(Field::End).message(),
        "invalid field `end`: expected a 32-bit integer"
    );
    assert_eq!(DecodeError::Mismatch(Field::Mean).message(), "invalid field `mean`: expected a number");
    assert_eq!(DecodeError::Mismatch(Field::P).message(), "invalid field `p`: expected a number");
    assert_eq!(
        DecodeError::UnknownDistribution("unknown".to_string()).message(),
        "unknown variant `unknown`, expected one of `uniform`, `normal`, `bernoulli`"
    );
}

#[test]
fn field_names_are_the_keys_of_the_schema() {
    let names: Vec<&str> = [
        Field::Distribution,
        Field::Parameters,
        Field::Start,
        Field::End,
        Field::Mean,
        Field::StdDev,
        Field::P,
    ]
    .iter()
    .map(|field| field.name())
    .collect();
    assert_eq!(names, ["distribution", "parameters", "start", "end", "mean", "std_dev", "p"]);
    assert_eq!(Field::Start.expected(), "a 32-bit integer");
    assert_eq!(Field::P.expected(), "a number");
}

#[test]
fn distributions_go_by_their_names() {
    assert_eq!(Distribution::from_name("uniform"), Some(Distribution::Uniform));
    assert_eq!(Distribution::from_name("normal"), Some(Distribution::Normal));
    assert_eq!(Distribution::from_name("bernoulli"), Some(Distribution::Bernoulli));
    assert_eq!(Distribution::from_name("unknown"), None);
    assert_eq!(Distribution::from_name("Uniform"), None);
    assert_eq!(Distribution::from_name(""), None);
}

#[test]
fn validity_is_the_samplers_domain() {
    assert!(RngRequest::Uniform { start: 0, end: 1 }.is_valid());
    assert!(RngRequest::Uniform { start: i32::MIN, end: i32::MAX }.is_valid());
    assert!(!RngRequest::Uniform { start: 0, end: 0 }.is_valid());
    assert!(!RngRequest::Uniform { start: 1, end: 0 }.is_valid());
    for (std_dev, valid) in [
        (1.0, true),
        (0.0, true),
        (-0.0, true),
        (f64::INFINITY, true),
        (f64::MIN_POSITIVE, true),
        (-1.0, false),
        (-f64::MIN_POSITIVE, false),
        (f64::NEG_INFINITY, false),
        (f64::NAN, false),
    ] {
        let request = RngRequest::Normal { mean: double(f64::NAN), std_dev: double(std_dev) };
        assert_eq!(request.is_valid(), valid, "std_dev {}", std_dev);
        assert_eq!(request.is_valid(), std_dev >= 0.0);
    }
    for (p, valid) in [
        (0.0, true),
        (-0.0, true),
        (0.5, true),
        (1.0, true),
        (1.0000000000000002, false),
        (-1e-300, false),
        (2.0, false),
        (f64::INFINITY, false),
        (f64::NAN, false),
    ] {
        let request = RngRequest::Bernoulli { p: double(p) };
        assert_eq!(request.is_valid(), valid, "p {}", p);
        assert_eq!(request.is_valid(), (p >= 0.0) & (p <= 1.0));
    }
}
