use nsq_client::Fatal;
use nsq_client::is_sentinel;
use nsq_client::sentinel_payload;

#[test]
fn sentinel_payload_is_empty_and_recognised() {
    let p = sentinel_payload();
    assert!(p.is_empty());
    assert!(is_sentinel(&p));
}

#[test]
fn nonempty_payload_is_no_sentinel() {
    assert!(!is_sentinel(&vec![0u8]));
}

#[test]
fn fatal_descriptions_name_the_failure() {
    assert_eq!(
        Fatal::AuthRequired.as_str(),
        "authentication required but no secret configured"
    );
    assert_eq!(Fatal::MalformedResponse.as_str(), "malformed negotiation response");
}
