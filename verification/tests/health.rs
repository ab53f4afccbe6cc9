use axum_spa::health::{health_body, health_message};

const EXPECTED_MESSAGE: &str = "Building a Full-stack SPA demo using Solidjs, TypeScript, and Tailwindcss. Backend by Rust/Axum.";

#[test]
fn health_body_is_the_exact_payload() {
    let expected = format!(
        "{{\"status\":\"success\",\"message\":\"{}\"}}",
        EXPECTED_MESSAGE
    );
    assert_eq!(health_body(), expected);
}

#[test]
fn health_message_is_the_fixed_literal() {
    assert_eq!(health_message(), EXPECTED_MESSAGE);
    assert!(!health_message().is_empty());
}

#[test]
fn health_body_parses_as_json_with_the_two_fields() {
    let body = health_body();
    let value: serde_json::Value = serde_json::from_str(&body).unwrap();
    let object = value.as_object().unwrap();
    assert_eq!(object.len(), 2);
    assert_eq!(object.get("status").unwrap().as_str().unwrap(), "success");
    let message = object.get("message").unwrap().as_str().unwrap();
    assert_eq!(message, EXPECTED_MESSAGE);
    assert!(!message.is_empty());
}

#[test]
fn repeated_health_bodies_are_identical() {
    let first = health_body();
    for _ in 0..16 {
        assert_eq!(health_body(), first);
    }
}
