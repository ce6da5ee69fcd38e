use urbit_session::interface::assemble_put_parts;

#[test]
fn put_carries_the_stored_credential_verbatim() {
    let credential = "urbauth-~zod=ABC123; Path=/";
    let payload = json::parse("{\"ship\":\"zod\"}").unwrap();
    let parts = assemble_put_parts(credential, "http://0.0.0.0:8080/~/channel/123", &payload);
    assert_eq!(parts.cookie, credential);
    assert_eq!(parts.url, "http://0.0.0.0:8080/~/channel/123");
}

#[test]
fn put_body_is_the_payload_serialized() {
    let payload = json::parse("{\"ship\":\"zod\"}").unwrap();
    let parts = assemble_put_parts("urbauth-~zod=ABC123", "http://h/p", &payload);
    assert_eq!(parts.body_text, "{\"ship\":\"zod\"}");
}

#[test]
fn repeated_puts_assemble_identical_independent_requests() {
    let payload = json::parse("{\"action\":\"poke\",\"ship\":\"zod\"}").unwrap();
    let first = assemble_put_parts("urbauth-~zod=ABC123", "http://h/p", &payload);
    let second = assemble_put_parts("urbauth-~zod=ABC123", "http://h/p", &payload);
    assert_eq!(first.url, second.url);
    assert_eq!(first.cookie, second.cookie);
    assert_eq!(first.body_text, second.body_text);
}
