use lucky_numbers::lambda_gateway::LambdaResponseBuilder;
use lucky_numbers::payloads::OutputPayload;

#[test]
fn defaults_when_unconfigured() {
    let response = LambdaResponseBuilder::new().build();
    assert_eq!(response.status_code(), 200);
    assert_eq!(response.body_str(), "");
    assert!(!response.is_base64_encoded());
    assert!(response.header("content-type").is_none());
    assert_eq!(response.header_pairs().len(), 0);
}

#[test]
fn with_status_overwrites_previous_value() {
    let response = LambdaResponseBuilder::new()
        .with_status(301)
        .with_status(404)
        .build();
    assert_eq!(response.status_code(), 404);
}

#[test]
fn header_lookup_is_case_insensitive() {
    let response = LambdaResponseBuilder::new()
        .with_header("Content-Type", "text/html")
        .build();
    assert_eq!(response.header("CONTENT-TYPE").unwrap(), "text/html");
    assert_eq!(response.header("content-type").unwrap(), "text/html");
    assert_eq!(response.header("cOnTeNt-TyPe").unwrap(), "text/html");
    assert!(response.header("content-length").is_none());
}

#[test]
fn later_header_insert_wins() {
    let response = LambdaResponseBuilder::new()
        .with_header("X-Trace", "first")
        .with_header("x-trace", "second")
        .build();
    assert_eq!(response.header("X-TRACE").unwrap(), "second");
    assert_eq!(response.header_pairs().len(), 1);
}

#[test]
fn header_names_are_stored_lowercased() {
    let response = LambdaResponseBuilder::new()
        .with_header("X-Loud-NAME", "v")
        .build();
    let pairs = response.header_pairs();
    assert_eq!(pairs.len(), 1);
    assert_eq!(pairs[0].0, "x-loud-name");
    assert_eq!(pairs[0].1, "v");
}

#[test]
fn with_json_sets_content_type_when_absent() {
    let out = OutputPayload {
        message: String::from("hello"),
        numbers: vec![3],
    };
    let response = LambdaResponseBuilder::new().with_json(&out).build();
    assert_eq!(response.header("content-type").unwrap(), "application/json");
    assert_eq!(response.header_pairs().len(), 1);
}

#[test]
fn with_json_keeps_preset_content_type() {
    let out = OutputPayload {
        message: String::from("hello"),
        numbers: vec![3],
    };
    let response = LambdaResponseBuilder::new()
        .with_header("Content-Type", "text/plain")
        .with_json(&out)
        .build();
    assert_eq!(response.header("content-type").unwrap(), "text/plain");
    assert_eq!(response.header_pairs().len(), 1);
}

#[test]
fn build_copies_configuration_verbatim() {
    let out = OutputPayload {
        message: String::from("m"),
        numbers: vec![1, 2],
    };
    let response = LambdaResponseBuilder::new()
        .with_status(503)
        .with_header("X-One", "1")
        .with_header("X-Two", "2")
        .with_json(&out)
        .build();
    assert_eq!(response.status_code(), 503);
    assert!(!response.is_base64_encoded());
    assert_eq!(response.header("x-one").unwrap(), "1");
    assert_eq!(response.header("x-two").unwrap(), "2");
    assert_eq!(response.body_str(), "{\"message\":\"m\",\"numbers\":[1,2]}");
}

#[test]
fn equal_builder_states_yield_equal_responses() {
    let make = || {
        let out = OutputPayload {
            message: String::from("twice"),
            numbers: vec![7, 7, 7],
        };
        LambdaResponseBuilder::new()
            .with_status(201)
            .with_header("X-Tag", "t")
            .with_json(&out)
            .build()
    };
    let a = make();
    let b = make();
    assert_eq!(a.status_code(), b.status_code());
    assert_eq!(a.is_base64_encoded(), b.is_base64_encoded());
    assert_eq!(a.body_str(), b.body_str());
    assert_eq!(a.header_pairs(), b.header_pairs());
}
