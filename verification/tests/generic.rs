use prololo::generic::handle_generic_event;
use prololo::generic::GenericEvent;
use prololo::generic::GenericPayload;

#[test]
fn test_handle_generic_event() {
    let event = GenericEvent(GenericPayload {
        message: "Hello World!".to_string(),
        tag: Some("generic".to_string()),
        url: Some(url::Url::parse("https://prologin.org/").unwrap().to_string()),
    });

    let response = handle_generic_event(event).expect("should have a response");
    let message = response.message;

    assert_eq!(message.plain, "[generic] Hello World! (https://prologin.org/)");
    assert_eq!(message.html, "<b>[generic]</b> Hello World! (https://prologin.org/)");
}

#[test]
fn generic_event_without_tag_or_url() {
    let event = GenericEvent(GenericPayload {
        message: "plain alert".to_string(),
        tag: None,
        url: None,
    });

    let response = handle_generic_event(event).expect("should have a response");
    assert_eq!(response.message.plain, "plain alert");
    assert_eq!(response.message.html, "plain alert");
    assert!(response.repo.is_none());
}
